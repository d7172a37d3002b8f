//! The command line that runs the converter.

use crate::state::ConversionRequest;
use vstd::prelude::*;

verus! {

/// The program that runs the converter script.
pub open spec fn program_name() -> Seq<char> {
    "uv"@
}

/// The arguments for a run of the converter: the runner's subcommand, the
/// script, the recipe file and, when an archive goes along, its flag and path.
pub open spec fn converter_arguments(q: ConversionRequest) -> Seq<Seq<char>> {
    let base = seq!["run"@, "minecraft_recipe.py"@, q.txt_file@];
    match q.mcaddon_file {
        Some(m) => base + seq!["--mcaddon"@, m@],
        None => base,
    }
}

/// The program that runs the converter script.
pub fn converter_program() -> (r: String)
    ensures
        r@ == program_name(),
{
    "uv".to_owned()
}

impl ConversionRequest {
    /// The arguments to hand to the converter program.
    pub fn arguments(&self) -> (r: Vec<String>)
        ensures
            r@.map_values(|s: String| s@) == converter_arguments(*self),
    {
        let mut r: Vec<String> = Vec::new();
        r.push("run".to_owned());
        r.push("minecraft_recipe.py".to_owned());
        r.push(self.txt_file.clone());
        match &self.mcaddon_file {
            Some(m) => {
                r.push("--mcaddon".to_owned());
                r.push(m.clone());
            },
            None => {},
        }
        proof {
            assert(r@.map_values(|s: String| s@) =~= converter_arguments(*self));
        }
        r
    }
}

} // verus!
