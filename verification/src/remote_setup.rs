use vstd::prelude::*;

verus! {

/// The directory on the remote host that receives the remote executable:
/// `~/.local/bin`, which most Linux distributions put on `PATH` already.
pub fn remote_install_dir() -> (r: &'static str)
    ensures
        r@ == "~/.local/bin"@,
{
    "~/.local/bin"
}

/// The name of the remote executable.
pub fn remote_binary_name() -> (r: &'static str)
    ensures
        r@ == "cexec"@,
{
    "cexec"
}

/// The shell script that prepares the remote host: it creates the install
/// directory and `~/.cssh`, where the agent's port file goes.
pub fn generate_setup_script() -> (r: String)
    ensures
        r@ == "mkdir -p "@ + "~/.local/bin"@ + " ~/.cssh"@,
{
    String::from_str("mkdir -p ").concat(remote_install_dir()).concat(" ~/.cssh")
}

} // verus!
