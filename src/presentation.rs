//! Scripts that apply saved settings to the live front end. Building them
//! is separate from running them, which the desktop shell does and whose
//! failures it only logs.
use crate::text::owned;
use vstd::prelude::*;

verus! {

/// The script that sets the CSS colour variable of one priority level.
pub open spec fn color_script_text(level_key: Seq<char>, color_value: Seq<char>) -> Seq<char> {
    "document.documentElement.style.setProperty('--"@ + level_key + "-color', '"@ + color_value
        + "')"@
}

/// The script that selects a theme.
pub open spec fn theme_script_text(theme: Seq<char>) -> Seq<char> {
    "document.documentElement.setAttribute('data-theme', '"@ + theme + "')"@
}

/// The script that sets the accent colour.
pub open spec fn accent_script_text(color: Seq<char>) -> Seq<char> {
    "document.documentElement.style.setProperty('--accent-color', '"@ + color + "')"@
}

/// Builds the script that sets the colour of one priority level.
pub fn color_script(level_key: &String, color_value: &String) -> (r: String)
    ensures
        r@ == color_script_text(level_key@, color_value@),
{
    let mut s = owned("document.documentElement.style.setProperty('--");
    s.append(level_key.as_str());
    s.append("-color', '");
    s.append(color_value.as_str());
    s.append("')");
    s
}

/// Builds the scripts that set the colours of all levels, one per pair, in
/// order.
pub fn color_scripts(colors: &Vec<(String, String)>) -> (r: Vec<String>)
    ensures
        r@.len() == colors@.len(),
        forall|i: int|
            0 <= i < colors@.len() ==> #[trigger] r@[i]@ == color_script_text(
                colors@[i].0@,
                colors@[i].1@,
            ),
{
    let mut out: Vec<String> = Vec::new();
    let mut i: usize = 0;
    while i < colors.len()
        invariant
            i <= colors@.len(),
            out@.len() == i,
            forall|q: int|
                0 <= q < i ==> #[trigger] out@[q]@ == color_script_text(
                    colors@[q].0@,
                    colors@[q].1@,
                ),
        decreases colors@.len() - i,
    {
        let pair = &colors[i];
        out.push(color_script(&pair.0, &pair.1));
        i = i + 1;
    }
    out
}

/// Builds the script that selects a theme.
pub fn theme_script(theme: &String) -> (r: String)
    ensures
        r@ == theme_script_text(theme@),
{
    let mut s = owned("document.documentElement.setAttribute('data-theme', '");
    s.append(theme.as_str());
    s.append("')");
    s
}

/// Builds the script that sets the accent colour.
pub fn accent_script(color: &String) -> (r: String)
    ensures
        r@ == accent_script_text(color@),
{
    let mut s = owned("document.documentElement.style.setProperty('--accent-color', '");
    s.append(color.as_str());
    s.append("')");
    s
}

} // verus!
