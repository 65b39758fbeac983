//! What one compiler run is started with.
use vstd::prelude::*;

verus! {

/// The toolchain location used when none is configured.
pub open spec fn default_sysroot() -> Seq<char> {
    "~/.rustup/toolchains/stable-x86_64-unknown-linux-gnu/"@
}

/// The toolchain location: the configured one, or else the default.
pub fn sysroot(configured: Option<String>) -> (r: String)
    ensures
        r@ == match configured {
            Some(location) => location@,
            None => default_sysroot(),
        },
{
    match configured {
        Some(location) => location,
        None => "~/.rustup/toolchains/stable-x86_64-unknown-linux-gnu/".to_owned(),
    }
}

/// The arguments of a compiler run on `input` with the toolchain at
/// `sysroot`. The first is the name of the program, which the compiler
/// passes over as it does on a command line; then come the input, the
/// instruction to emit the intermediate representation of a binary crate of
/// edition 2024, and the toolchain location.
pub fn compiler_args(input: String, sysroot: String) -> (args: Vec<String>)
    ensures
        args@.len() == 7,
        args@[0]@ == "rustc"@,
        args@[1]@ == input@,
        args@[2]@ == "--emit=mir"@,
        args@[3]@ == "--crate-type=bin"@,
        args@[4]@ == "--edition=2024"@,
        args@[5]@ == "--sysroot"@,
        args@[6]@ == sysroot@,
{
    let mut args: Vec<String> = Vec::new();
    args.push("rustc".to_owned());
    args.push(input);
    args.push("--emit=mir".to_owned());
    args.push("--crate-type=bin".to_owned());
    args.push("--edition=2024".to_owned());
    args.push("--sysroot".to_owned());
    args.push(sysroot);
    args
}

} // verus!
