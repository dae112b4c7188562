use vstd::prelude::*;

verus! {

/// The example manifest that the init command writes into the working
/// directory, line for line.
pub fn example_magefile() -> (r: String)
    ensures
        r@ == "[\"example.config\"]\ntarget_path = \"~/.config/example.config\"\n"@,
{
    String::from_str("[\"example.config\"]\ntarget_path = \"~/.config/example.config\"\n")
}

} // verus!
