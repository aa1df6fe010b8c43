use vstd::prelude::*;

verus! {

/// The tool's settings, loaded once at start and never changed afterwards.
#[derive(Clone, Debug)]
pub struct Config {
    /// Where the dependencies land in the build tool's output tree.
    pub lib_target: String,
    /// The directory under which each dependency is checked out.
    pub lib_dir: String,
    /// The path of the downstream build configuration file.
    pub rojo_path: String,
}

impl Config {
    pub fn new(lib_target: &str, lib_dir: &str, rojo_path: &str) -> (r: Config)
        ensures
            r.lib_target@ == lib_target@,
            r.lib_dir@ == lib_dir@,
            r.rojo_path@ == rojo_path@,
    {
        Config {
            lib_target: String::from_str(lib_target),
            lib_dir: String::from_str(lib_dir),
            rojo_path: String::from_str(rojo_path),
        }
    }

    /// The settings written by the initialization command.
    pub fn starter() -> (r: Config)
        ensures
            r.lib_target@ == "ReplicatedStorage"@,
            r.lib_dir@ == "lib"@,
            r.rojo_path@ == "rojo.json"@,
    {
        Config::new("ReplicatedStorage", "lib", "rojo.json")
    }
}

} // verus!
