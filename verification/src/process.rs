//! Terminal launch planning: which arguments force the window identifier,
//! and which identifier the spawned terminal will register.
//!
//! The actual `spawn` is an operating-system effect and lives in the binary;
//! it calls [`get_class_args`] for the argument vector and hands the outcome
//! back to the state machine as a [`SpawnResult`].

use vstd::prelude::*;

verus! {

/// Outcome of a successful terminal launch: the child's process id and the
/// window identifier the terminal is expected to register with the
/// compositor.
#[derive(Debug, Clone, PartialEq)]
pub struct SpawnResult {
    pub pid: u32,
    pub app_id: String,
}

/// The window identifier injected for every terminal except ghostty.
pub open spec fn quake_app_id() -> Seq<char> {
    "cosmic-ext-quake-terminal"@
}

/// The identifier ghostty always registers; it ignores class overrides.
pub open spec fn ghostty_app_id() -> Seq<char> {
    "com.mitchellh.ghostty"@
}

/// The final path component of a command: the text after the last `/`, or
/// the whole text when no `/` occurs.
pub open spec fn basename_of(s: Seq<char>) -> Seq<char>
    decreases s.len(),
{
    if s.len() == 0 {
        s
    } else if s.last() == '/' {
        Seq::<char>::empty()
    } else {
        basename_of(s.drop_last()).push(s.last())
    }
}

/// The identifier the given terminal command will register: ghostty keeps
/// its own fixed identifier, every other terminal gets the quake one.
pub open spec fn app_id_for(cmd: Seq<char>) -> Seq<char> {
    if basename_of(cmd) == "ghostty"@ {
        ghostty_app_id()
    } else {
        quake_app_id()
    }
}

/// The arguments prepended to the command so the window registers the
/// expected identifier.
pub open spec fn class_args_for(cmd: Seq<char>) -> Seq<Seq<char>> {
    let base = basename_of(cmd);
    if base == "ghostty"@ {
        seq!["--gtk-single-instance=false"@]
    } else if base == "foot"@ {
        seq!["--app-id=cosmic-ext-quake-terminal"@]
    } else {
        seq!["--class"@, "cosmic-ext-quake-terminal"@]
    }
}

/// Compares two string slices character by character.
pub fn str_eq(a: &str, b: &str) -> (r: bool)
    ensures
        r == (a@ == b@),
{
    let a_len = a.unicode_len();
    let b_len = b.unicode_len();
    if a_len != b_len {
        return false;
    }
    let mut i: usize = 0;
    while i < a_len
        invariant
            i <= a_len,
            a_len == a@.len(),
            b_len == b@.len(),
            a_len == b_len,
            forall|j: int| 0 <= j < i ==> a@[j] == b@[j],
        decreases a_len - i,
    {
        if a.get_char(i) != b.get_char(i) {
            return false;
        }
        i += 1;
    }
    proof {
        assert(a@ =~= b@);
    }
    true
}

/// Everything after the last `/` of `s` is its basename, provided `cut`
/// points just past that last `/` (or to the start when there is none).
proof fn lemma_basename_subrange(s: Seq<char>, cut: int)
    requires
        0 <= cut <= s.len(),
        forall|j: int| cut <= j < s.len() ==> s[j] != '/',
        cut > 0 ==> s[cut - 1] == '/',
    ensures
        basename_of(s) == s.subrange(cut, s.len() as int),
    decreases s.len(),
{
    if cut == s.len() {
        if s.len() == 0 {
            assert(basename_of(s) =~= s.subrange(cut, s.len() as int));
        } else {
            assert(s.last() == '/');
            assert(basename_of(s) =~= s.subrange(cut, s.len() as int));
        }
    } else {
        assert(s.last() != '/');
        let prefix = s.drop_last();
        lemma_basename_subrange(prefix, cut);
        assert(prefix.subrange(cut, prefix.len() as int).push(s.last()) =~= s.subrange(
            cut,
            s.len() as int,
        ));
    }
}

/// The final path component of a command, as `rsplit('/')` would yield it.
pub fn basename<'a>(command: &'a str) -> (r: &'a str)
    ensures
        r@ == basename_of(command@),
{
    let n = command.unicode_len();
    let mut cut: usize = 0;
    let mut i: usize = 0;
    while i < n
        invariant
            i <= n,
            cut <= i,
            n == command@.len(),
            forall|j: int| cut <= j < i ==> command@[j] != '/',
            cut > 0 ==> command@[cut - 1] == '/',
        decreases n - i,
    {
        if command.get_char(i) == '/' {
            cut = i + 1;
        }
        i += 1;
    }
    proof {
        lemma_basename_subrange(command@, cut as int);
    }
    command.substring_char(cut, n)
}

/// The argument vector injected before the user's own arguments, and the
/// window identifier those arguments make the terminal register.
pub fn get_class_args(command: &str) -> (r: (Vec<String>, String))
    ensures
        r.0.deep_view() == class_args_for(command@),
        r.1@ == app_id_for(command@),
{
    let base = basename(command);
    if str_eq(base, "ghostty") {
        // ghostty on GTK ignores --class; it always uses its default
        // identifier.  --gtk-single-instance=false avoids joining an
        // existing instance.
        let mut args: Vec<String> = Vec::new();
        args.push(String::from_str("--gtk-single-instance=false"));
        let id = String::from_str("com.mitchellh.ghostty");
        proof {
            assert(args.deep_view() =~= class_args_for(command@));
        }
        (args, id)
    } else if str_eq(base, "foot") {
        // foot takes the identifier through --app-id.
        let mut args: Vec<String> = Vec::new();
        args.push(String::from_str("--app-id=cosmic-ext-quake-terminal"));
        let id = String::from_str("cosmic-ext-quake-terminal");
        proof {
            assert(args.deep_view() =~= class_args_for(command@));
        }
        (args, id)
    } else if str_eq(base, "cosmic-term") || str_eq(base, "alacritty") || str_eq(base, "kitty")
        || str_eq(base, "wezterm") {
        // Most terminals accept --class.
        let mut args: Vec<String> = Vec::new();
        args.push(String::from_str("--class"));
        args.push(String::from_str("cosmic-ext-quake-terminal"));
        let id = String::from_str("cosmic-ext-quake-terminal");
        proof {
            assert(args.deep_view() =~= class_args_for(command@));
        }
        (args, id)
    } else {
        // Unknown terminal: try --class and hope it is honoured.
        let mut args: Vec<String> = Vec::new();
        args.push(String::from_str("--class"));
        args.push(String::from_str("cosmic-ext-quake-terminal"));
        let id = String::from_str("cosmic-ext-quake-terminal");
        proof {
            assert(args.deep_view() =~= class_args_for(command@));
        }
        (args, id)
    }
}

/// The window identifier the given terminal command will register, used to
/// target the bridge before and after a spawn.
pub fn get_app_id(command: &str) -> (r: String)
    ensures
        r@ == app_id_for(command@),
{
    get_class_args(command).1
}

/// The liveness monitor's rule: a probe reports an exit only for a real
/// process id whose existence check failed.
pub fn should_report_exit(pid: u32, alive: bool) -> (r: bool)
    ensures
        r == (pid != 0 && !alive),
{
    pid != 0 && !alive
}

} // verus!
