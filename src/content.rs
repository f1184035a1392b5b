use vstd::prelude::*;

verus! {

/// The inline page loaded into the view: an empty element that a script
/// fills with the browser's preferred language list.
pub open spec fn initial_content_spec() -> Seq<char> {
    "
    <div></div>
    <script>
      const div = document.querySelector('div');
      div.textContent = window.navigator.languages.join(' ');
    </script>
"@
}

/// The inline page loaded into the view once the controller is configured.
pub fn initial_content() -> (r: String)
    ensures
        r@ == initial_content_spec(),
{
    let page = "
    <div></div>
    <script>
      const div = document.querySelector('div');
      div.textContent = window.navigator.languages.join(' ');
    </script>
";
    page.to_string()
}

} // verus!
