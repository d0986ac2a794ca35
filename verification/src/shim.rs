//! Command-line handling of the updater shim, the small process that installs
//! an update after the application has exited.

use vstd::prelude::*;

verus! {

/// The flag that names the downloaded installer.
pub open spec fn installer_flag() -> Seq<char> {
    "--installer"@
}

/// The flag that names the application executable to relaunch.
pub open spec fn installed_app_exe_flag() -> Seq<char> {
    "--installed-app-exe"@
}

/// The flag that names the version being installed.
pub open spec fn version_flag() -> Seq<char> {
    "--version"@
}

/// The flag that names the sidecar process to stop before installing.
pub open spec fn sidecar_name_flag() -> Seq<char> {
    "--sidecar-name"@
}

/// One of the four flags the shim understands.
pub open spec fn is_shim_flag(s: Seq<char>) -> bool {
    ||| s == installer_flag()
    ||| s == installed_app_exe_flag()
    ||| s == version_flag()
    ||| s == sidecar_name_flag()
}

/// The texts of a list of arguments.
pub open spec fn arg_texts(args: Seq<String>) -> Seq<Seq<char>> {
    args.map_values(|a: String| a@)
}

/// The argument that follows the first occurrence of `flag`; `None` when the
/// flag is absent or is the last argument.
pub open spec fn arg_after(args: Seq<Seq<char>>, flag: Seq<char>) -> Option<Seq<char>>
    decreases args.len(),
{
    if args.len() == 0 {
        None
    } else if args[0] == flag {
        if args.len() > 1 {
            Some(args[1])
        } else {
            None
        }
    } else {
        arg_after(args.drop_first(), flag)
    }
}

proof fn lemma_arg_after_skip(args: Seq<Seq<char>>, flag: Seq<char>, i: int)
    requires
        0 <= i < args.len(),
        args[i] != flag,
    ensures
        arg_after(args.skip(i), flag) == arg_after(args.skip(i + 1), flag),
{
    assert(args.skip(i).drop_first() =~= args.skip(i + 1));
}

/// Returns the argument right after the first occurrence of `flag` in `args`,
/// or `None` if the flag does not occur or nothing follows it.
pub fn get_arg(args: &[String], flag: &str) -> (r: Option<String>)
    ensures
        match r {
            Some(v) => arg_after(arg_texts(args@), flag@) == Some(v@),
            None => arg_after(arg_texts(args@), flag@) is None,
        },
{
    let ghost texts = arg_texts(args@);
    let wanted = String::from_str(flag);
    let n = args.len();
    let mut i: usize = 0;
    assert(texts.skip(0) =~= texts);
    while i < n
        invariant
            n == args@.len(),
            texts == arg_texts(args@),
            texts.len() == n,
            wanted@ == flag@,
            i <= n,
            arg_after(texts, flag@) == arg_after(texts.skip(i as int), flag@),
        decreases n - i,
    {
        if args[i] == wanted {
            assert(texts.skip(i as int)[0] == texts[i as int]);
            if i + 1 < n {
                assert(texts.skip(i as int)[1] == texts[i + 1]);
                return Some(args[i + 1].clone());
            } else {
                return None;
            }
        }
        proof {
            lemma_arg_after_skip(texts, flag@, i as int);
        }
        i = i + 1;
    }
    assert(texts.skip(n as int).len() == 0);
    None
}

/// The arguments the shim runs with.
pub struct ShimArgs {
    pub installer: String,
    pub installed_app_exe: String,
    pub version: String,
    pub sidecar_name: Option<String>,
}

/// A required argument that is missing from the command line.
#[derive(Debug, Clone, Copy, PartialEq, Eq, Structural)]
pub enum ShimArgsError {
    MissingInstaller,
    MissingInstalledAppExe,
}

/// The texts of a parsed command line: installer, application executable,
/// version and, if given, the sidecar name.
pub type ShimArgsParts = (Seq<char>, Seq<char>, Seq<char>, Option<Seq<char>>);

/// The version recorded when `--version` is not given.
pub open spec fn unknown_version() -> Seq<char> {
    "unknown"@
}

/// How the shim reads its command line: `--installer` and
/// `--installed-app-exe` are required (checked in that order), `--version`
/// defaults to `unknown`, `--sidecar-name` is optional.
pub open spec fn parse_shim_args(args: Seq<Seq<char>>) -> Result<ShimArgsParts, ShimArgsError> {
    match arg_after(args, installer_flag()) {
        None => Err(ShimArgsError::MissingInstaller),
        Some(installer) => match arg_after(args, installed_app_exe_flag()) {
            None => Err(ShimArgsError::MissingInstalledAppExe),
            Some(exe) => Ok(
                (
                    installer,
                    exe,
                    match arg_after(args, version_flag()) {
                        Some(v) => v,
                        None => unknown_version(),
                    },
                    arg_after(args, sidecar_name_flag()),
                ),
            ),
        },
    }
}

impl ShimArgs {
    pub open spec fn parts(&self) -> ShimArgsParts {
        (
            self.installer@,
            self.installed_app_exe@,
            self.version@,
            match self.sidecar_name {
                Some(s) => Some(s@),
                None => None,
            },
        )
    }

    /// Reads the shim's command line (`args[0]` is the program itself).
    pub fn parse(args: &[String]) -> (r: Result<ShimArgs, ShimArgsError>)
        ensures
            match r {
                Ok(a) => parse_shim_args(arg_texts(args@)) == Ok::<ShimArgsParts, ShimArgsError>(
                    a.parts(),
                ),
                Err(e) => parse_shim_args(arg_texts(args@)) == Err::<ShimArgsParts, ShimArgsError>(
                    e,
                ),
            },
    {
        let installer = match get_arg(args, "--installer") {
            Some(p) => p,
            None => return Err(ShimArgsError::MissingInstaller),
        };
        let installed_app_exe = match get_arg(args, "--installed-app-exe") {
            Some(p) => p,
            None => return Err(ShimArgsError::MissingInstalledAppExe),
        };
        let version = match get_arg(args, "--version") {
            Some(v) => v,
            None => String::from_str("unknown"),
        };
        let sidecar_name = get_arg(args, "--sidecar-name");
        Ok(ShimArgs { installer, installed_app_exe, version, sidecar_name })
    }
}


/// The `taskkill` arguments that force-stop the sidecar and its children:
/// `/F /IM <sidecar_name>.exe /T`.
pub fn taskkill_args(sidecar_name: &str) -> (args: Vec<String>)
    ensures
        arg_texts(args@) == seq!["/F"@, "/IM"@, sidecar_name@ + ".exe"@, "/T"@],
{
    let mut args: Vec<String> = Vec::new();
    args.push(String::from_str("/F"));
    args.push(String::from_str("/IM"));
    args.push(String::from_str(sidecar_name).concat(".exe"));
    args.push(String::from_str("/T"));
    assert(arg_texts(args@) =~= seq!["/F"@, "/IM"@, sidecar_name@ + ".exe"@, "/T"@]);
    args
}

/// The arguments the NSIS installer runs with: `/S` (silent install) and
/// `/NORESTART`.
pub fn installer_run_args() -> (args: Vec<String>)
    ensures
        arg_texts(args@) == seq!["/S"@, "/NORESTART"@],
{
    let mut args: Vec<String> = Vec::new();
    args.push(String::from_str("/S"));
    args.push(String::from_str("/NORESTART"));
    assert(arg_texts(args@) =~= seq!["/S"@, "/NORESTART"@]);
    args
}

/// A step of the shim's update flow that failed; each is logged and reported
/// to the user in an error dialog.
#[derive(Debug, Clone, Copy, PartialEq, Eq, Structural)]
pub enum ShimFailure {
    /// A required command-line argument is missing.
    MissingArgument(ShimArgsError),
    /// The installer file does not exist.
    InstallerNotFound,
    /// The installer process could not be started.
    InstallerNotStarted,
    /// Waiting for the installer process failed.
    InstallerNotAwaited,
    /// The installer exited unsuccessfully.
    InstallerFailed,
    /// The installed application executable is not where it is expected.
    InstalledAppMissing,
    /// The installed application could not be started again.
    RelaunchFailed,
}

/// Once the installer has exited: the application is relaunched only when
/// the installer succeeded and the installed executable exists; otherwise the
/// failure names the first of these that does not hold.
pub fn relaunch_check(installer_succeeded: bool, installed_app_exists: bool) -> (r: Result<
    (),
    ShimFailure,
>)
    ensures
        installer_succeeded && installed_app_exists ==> r == Ok::<(), ShimFailure>(()),
        !installer_succeeded ==> r == Err::<(), ShimFailure>(ShimFailure::InstallerFailed),
        installer_succeeded && !installed_app_exists ==> r == Err::<(), ShimFailure>(
            ShimFailure::InstalledAppMissing,
        ),
{
    if !installer_succeeded {
        Err(ShimFailure::InstallerFailed)
    } else if !installed_app_exists {
        Err(ShimFailure::InstalledAppMissing)
    } else {
        Ok(())
    }
}

/// `arg_after` yields the value right after the first occurrence of the flag:
/// when it yields a value, the flag occurs at some position with that value
/// next and nowhere before; when it yields nothing, the flag's first
/// occurrence, if any, is the last argument.
pub proof fn arg_after_follows_first_occurrence(args: Seq<Seq<char>>, flag: Seq<char>)
    ensures
        arg_after(args, flag) matches Some(v) ==> exists|i: int|
            0 <= i < args.len() - 1 && #[trigger] args[i] == flag && args[i + 1] == v && forall|j: int|
                0 <= j < i ==> #[trigger] args[j] != flag,
        arg_after(args, flag) is None ==> forall|i: int|
            0 <= i < args.len() - 1 && #[trigger] args[i] == flag ==> exists|j: int|
                0 <= j < i && #[trigger] args[j] == flag,
    decreases args.len(),
{
    if args.len() == 0 {
    } else if args[0] == flag {
        if args.len() > 1 {
            assert(args[0] == flag && args[1] == args[1]);
        }
    } else {
        let rest = args.drop_first();
        arg_after_follows_first_occurrence(rest, flag);
        match arg_after(args, flag) {
            Some(v) => {
                let i = choose|i: int|
                    0 <= i < rest.len() - 1 && #[trigger] rest[i] == flag && rest[i + 1] == v
                        && forall|j: int| 0 <= j < i ==> #[trigger] rest[j] != flag;
                assert(args[i + 1] == flag && args[i + 2] == v);
                assert forall|j: int| 0 <= j < i + 1 implies #[trigger] args[j] != flag by {
                    if j > 0 {
                        assert(args[j] == rest[j - 1]);
                    }
                }
            },
            None => {
                assert forall|i: int|
                    0 <= i < args.len() - 1 && #[trigger] args[i] == flag implies exists|j: int|
                        0 <= j < i && #[trigger] args[j] == flag by {
                    assert(i > 0);
                    assert(rest[i - 1] == flag);
                    let j = choose|j: int| 0 <= j < i - 1 && #[trigger] rest[j] == flag;
                    assert(args[j + 1] == flag);
                }
            },
        }
    }
}

} // verus!
