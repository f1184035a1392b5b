use vstd::prelude::*;

verus! {

/// Capacity, in UTF-16 units, of the buffer a locale name is written into.
pub const MAX_LOCALE_NAME: usize = 85;

/// Whether a locale lookup that reported `written` units (terminator
/// included) into a buffer of `capacity` units produced a non-empty name.
pub open spec fn resolved(capacity: nat, written: i32) -> bool {
    2 <= written <= capacity
}

/// The locale name in `buf` when the lookup succeeded: the units before the
/// terminator.
pub open spec fn locale_name_spec(buf: Seq<u16>, written: i32) -> Option<Seq<u16>> {
    if resolved(buf.len(), written) {
        Some(buf.subrange(0, written - 1))
    } else {
        None
    }
}

/// Reads the result of a locale-name lookup. The lookup reports the number of
/// units written including the terminator, or zero on failure; a failed or
/// empty lookup gives `None`.
pub fn locale_name(buf: &Vec<u16>, written: i32) -> (r: Option<Vec<u16>>)
    ensures
        r is None <==> !resolved(buf@.len(), written),
        r is Some ==> Some(r.unwrap()@) == locale_name_spec(buf@, written),
{
    if written < 2 || written as usize > buf.len() {
        return None;
    }
    let n: usize = (written - 1) as usize;
    let mut name: Vec<u16> = Vec::new();
    let mut i: usize = 0;
    while i < n
        invariant
            n < buf@.len(),
            i <= n,
            name@ == buf@.subrange(0, i as int),
        decreases n - i,
    {
        name.push(buf[i]);
        i = i + 1;
        assert(name@ =~= buf@.subrange(0, i as int));
    }
    Some(name)
}

/// The name followed by a terminating zero unit, as the subsystem takes it.
pub fn terminated(name: &Vec<u16>) -> (r: Vec<u16>)
    requires
        name@.len() < usize::MAX,
    ensures
        r@ == name@.push(0u16),
{
    let mut out: Vec<u16> = name.clone();
    out.push(0);
    proof {
        assert(out@ =~= name@.push(0u16));
    }
    out
}

} // verus!
