use vstd::prelude::*;

use crate::text::{chars_of, escape_each, lemma_escape_each_first, push_char};

verus! {

/// Picks the login shell, makes a private temporary directory and starts the
/// per-shell setup, up to the body of the zsh `.zshenv`.
pub const BOOT_START: &'static str = r#"shell="${SHELL:-}"
if [ -z "$shell" ] || [ ! -x "$shell" ]; then
  for candidate in /bin/bash /usr/bin/bash /bin/sh; do
    if [ -x "$candidate" ]; then
      shell="$candidate"
      break
    fi
  done
fi
if [ -z "$shell" ] || [ ! -x "$shell" ]; then
  shell=/bin/sh
fi
shell_name="${shell##*/}"
tmpdir="$(mktemp -d 2>/dev/null || mktemp -d -t terax-ssh)"
cleanup() {
  rm -rf "$tmpdir"
}
trap cleanup EXIT HUP INT TERM
case "$shell_name" in
  zsh)
    mkdir -p "$tmpdir"
    cat >"$tmpdir/.zshenv" <<'__TERAX_ZSHENV__'
"#;

/// Between the zsh `.zshenv` and `.zprofile` bodies.
pub const BOOT_AFTER_ZSHENV: &'static str = r#"
__TERAX_ZSHENV__
    cat >"$tmpdir/.zprofile" <<'__TERAX_ZPROFILE__'
"#;

/// Between the zsh `.zprofile` and `.zshrc` bodies.
pub const BOOT_AFTER_ZPROFILE: &'static str = r#"
__TERAX_ZPROFILE__
    cat >"$tmpdir/.zshrc" <<'__TERAX_ZSHRC__'
"#;

/// Between the zsh `.zshrc` and `.zlogin` bodies.
pub const BOOT_AFTER_ZSHRC: &'static str = r#"
__TERAX_ZSHRC__
    cat >"$tmpdir/.zlogin" <<'__TERAX_ZLOGIN__'
"#;

/// After the zsh `.zlogin` body: starts zsh, then begins the bash rc file.
pub const BOOT_AFTER_ZLOGIN: &'static str = r#"
__TERAX_ZLOGIN__
    export TERAX_USER_ZDOTDIR="${TERAX_USER_ZDOTDIR:-$HOME}"
    export ZDOTDIR="$tmpdir"
    export TERAX_TERMINAL=1
    exec "$shell" -l
    ;;
  bash)
    cat >"$tmpdir/.terax-bashrc" <<'__TERAX_BASHRC__'
"#;

/// After the bash rc body: starts bash, then begins the fish init file.
pub const BOOT_AFTER_BASHRC: &'static str = r#"
__TERAX_BASHRC__
    export TERAX_TERMINAL=1
    exec "$shell" --rcfile "$tmpdir/.terax-bashrc" -i
    ;;
  fish)
    cat >"$tmpdir/.terax-fish.fish" <<'__TERAX_FISH__'
"#;

/// After the fish init body: starts fish, or any other shell as a login shell.
pub const BOOT_END: &'static str = r#"
__TERAX_FISH__
    export TERAX_TERMINAL=1
    exec "$shell" -i -C "source $tmpdir/.terax-fish.fish"
    ;;
  *)
    export TERAX_TERMINAL=1
    exec "$shell" -l
    ;;
esac"#;

/// How one character appears inside a single-quoted POSIX word: a quote
/// closes the quoting, is written escaped, and quoting reopens.
pub open spec fn quote_char(c: char) -> Seq<char> {
    if c == '\'' {
        seq!['\'', '\\', '\'', '\'']
    } else {
        seq![c]
    }
}

/// The body of a single-quoted POSIX word for `s`.
pub open spec fn quote_body(s: Seq<char>) -> Seq<char> {
    escape_each(s, |c: char| quote_char(c))
}

/// `s` as one single-quoted POSIX shell word.
pub open spec fn quoted(s: Seq<char>) -> Seq<char> {
    seq!['\''] + quote_body(s) + seq!['\'']
}

/// Quotes `value` as one POSIX shell word: wrapped in single quotes, with
/// each single quote written as `'\''`.
pub fn quote_posix(value: &str) -> (res: String)
    ensures
        res@ == quoted(value@),
{
    let chars = chars_of(value);
    let mut out = String::new();
    push_char(&mut out, '\'');
    let mut i: usize = 0;
    proof {
        assert(chars@.take(0) == Seq::<char>::empty());
        assert(out@ == seq!['\''] + quote_body(chars@.take(0)));
    }
    while i < chars.len()
        invariant
            i <= chars.len(),
            chars@ == value@,
            out@ == seq!['\''] + quote_body(chars@.take(i as int)),
        decreases chars.len() - i,
    {
        let c = chars[i];
        let ghost before = out@;
        if c == '\'' {
            push_char(&mut out, '\'');
            push_char(&mut out, '\\');
            push_char(&mut out, '\'');
            push_char(&mut out, '\'');
        } else {
            push_char(&mut out, c);
        }
        proof {
            let t = chars@.take(i + 1);
            assert(t.drop_last() == chars@.take(i as int));
            assert(t.last() == c);
            assert(out@ == before + quote_char(c));
            assert(out@ =~= seq!['\''] + quote_body(t));
        }
        i = i + 1;
    }
    push_char(&mut out, '\'');
    proof {
        assert(chars@.take(chars.len() as int) == chars@);
    }
    out
}

/// What a POSIX shell reads from the word `w` when the word is made only of
/// single-quoted runs and backslash-escaped characters (outside any quotes):
/// `None` when `w` is not such a word.
pub open spec fn shell_word_value(w: Seq<char>) -> Option<Seq<char>>
    decreases w.len(),
{
    if w.len() == 0 {
        Some(Seq::empty())
    } else if w[0] == '\'' {
        shell_quoted_run_value(w.drop_first())
    } else if w[0] == '\\' && w.len() >= 2 && w[1] != '\n' {
        match shell_word_value(w.skip(2)) {
            Some(r) => Some(seq![w[1]] + r),
            None => None,
        }
    } else {
        None
    }
}

/// What a POSIX shell reads from `w`, which follows an opening single quote:
/// every character up to the closing quote is taken as it is, and the rest
/// is read as by `shell_word_value`.
pub open spec fn shell_quoted_run_value(w: Seq<char>) -> Option<Seq<char>>
    decreases w.len(),
{
    if w.len() == 0 {
        None
    } else if w[0] == '\'' {
        shell_word_value(w.drop_first())
    } else {
        match shell_quoted_run_value(w.drop_first()) {
            Some(r) => Some(seq![w[0]] + r),
            None => None,
        }
    }
}

proof fn lemma_quoted_run_reads_back(t: Seq<char>, rest: Seq<char>)
    ensures
        shell_quoted_run_value(quote_body(t) + seq!['\''] + rest) == match shell_word_value(rest) {
            Some(r) => Some(t + r),
            None => None,
        },
    decreases t.len(),
{
    if t.len() == 0 {
        assert(quote_body(t) == Seq::<char>::empty());
        assert(quote_body(t) + seq!['\''] + rest == seq!['\''] + rest);
        assert((seq!['\''] + rest)[0] == '\'');
        assert((seq!['\''] + rest).drop_first() == rest);
        assert(shell_word_value(rest) matches Some(r) ==> t + r == r);
    } else {
        let c = t[0];
        let t2 = t.drop_first();
        let x = quote_body(t2) + seq!['\''] + rest;
        lemma_escape_each_first(t, |c: char| quote_char(c));
        lemma_quoted_run_reads_back(t2, rest);
        assert(quote_body(t) + seq!['\''] + rest == quote_char(c) + x);
        if c == '\'' {
            let w = quote_char(c) + x;
            assert(w[0] == '\'');
            let w1 = w.drop_first();
            assert(w1 == seq!['\\', '\'', '\''] + x);
            assert(w1[0] == '\\' && w1[1] == '\'');
            assert(w1.skip(2) == seq!['\''] + x);
            assert((seq!['\''] + x)[0] == '\'');
            assert((seq!['\''] + x).drop_first() == x);
            assert(shell_word_value(seq!['\''] + x) == shell_quoted_run_value(x));
            assert(shell_quoted_run_value(w) == shell_word_value(w1));
            assert(shell_word_value(w1) == match shell_word_value(w1.skip(2)) {
                Some(r) => Some(seq![w1[1]] + r),
                None => None,
            });
            if let Some(r) = shell_word_value(rest) {
                assert(seq![c] + (t2 + r) == t + r);
            }
        } else {
            let w = seq![c] + x;
            assert(w[0] == c);
            assert(w.drop_first() == x);
            if let Some(r) = shell_word_value(rest) {
                assert(seq![c] + (t2 + r) == t + r);
            }
        }
    }
}

/// A word quoted by `quote_posix` is one shell word whose value is exactly
/// the original string, whatever characters it holds.
pub proof fn lemma_quote_posix_reads_back(s: Seq<char>)
    ensures
        shell_word_value(quoted(s)) == Some(s),
{
    let w = quoted(s);
    lemma_quoted_run_reads_back(s, Seq::empty());
    assert(w[0] == '\'');
    assert(w.drop_first() == quote_body(s) + seq!['\''] + Seq::<char>::empty());
    assert(shell_word_value(Seq::<char>::empty()) == Some(Seq::<char>::empty()));
    assert(s + Seq::<char>::empty() == s);
}

/// `command`, run in `cwd` first when a non-empty `cwd` is given.
pub open spec fn shell_command_spec(cwd: Option<Seq<char>>, command: Seq<char>) -> Seq<char> {
    match cwd {
        Some(dir) => if dir.len() > 0 {
            "cd "@ + quoted(dir) + " && "@ + command
        } else {
            command
        },
        None => command,
    }
}

/// The view of an optional string argument.
pub open spec fn opt_view(s: Option<&str>) -> Option<Seq<char>> {
    match s {
        Some(v) => Some(v@),
        None => None,
    }
}

/// A shell command line that changes to `cwd` (when given and not empty)
/// and then runs `command`.
pub fn remote_shell_command(cwd: Option<&str>, command: &str) -> (res: String)
    ensures
        res@ == shell_command_spec(opt_view(cwd), command@),
{
    let mut out = String::new();
    if let Some(dir) = cwd {
        if !dir.is_empty() {
            out.append("cd ");
            let q = quote_posix(dir);
            out.append(q.as_str());
            out.append(" && ");
        }
    }
    out.append(command);
    out
}

/// The command line that has `sh` run `command` as a login shell.
pub open spec fn shell_invocation_spec(command: Seq<char>) -> Seq<char> {
    "sh -lc "@ + quoted(command)
}

/// Wraps `command` as a single argument of `sh -lc`.
pub fn remote_shell_invocation(command: &str) -> (res: String)
    ensures
        res@ == shell_invocation_spec(command@),
{
    let mut out = String::new();
    out.append("sh -lc ");
    let q = quote_posix(command);
    out.append(q.as_str());
    out
}

/// The bodies of the files that the login bootstrap writes for each shell.
pub struct ShellInitScripts {
    pub zshenv: String,
    pub zprofile: String,
    pub zshrc: String,
    pub zlogin: String,
    pub bashrc: String,
    pub fish: String,
}

/// Stand-in `.zshenv` body: only sources the user's own `.zshenv`.
pub const INIT_ZSHENV: &'static str = r#"[ -f "$TERAX_USER_ZDOTDIR/.zshenv" ] && . "$TERAX_USER_ZDOTDIR/.zshenv""#;

/// Stand-in `.zprofile` body: only sources the user's own `.zprofile`.
pub const INIT_ZPROFILE: &'static str = r#"[ -f "$TERAX_USER_ZDOTDIR/.zprofile" ] && . "$TERAX_USER_ZDOTDIR/.zprofile""#;

/// Stand-in `.zshrc` body: only sources the user's own `.zshrc`.
pub const INIT_ZSHRC: &'static str = r#"[ -f "$TERAX_USER_ZDOTDIR/.zshrc" ] && . "$TERAX_USER_ZDOTDIR/.zshrc""#;

/// Stand-in `.zlogin` body: only sources the user's own `.zlogin`.
pub const INIT_ZLOGIN: &'static str = r#"[ -f "$TERAX_USER_ZDOTDIR/.zlogin" ] && . "$TERAX_USER_ZDOTDIR/.zlogin""#;

/// Stand-in bash rc body: only sources the user's own `.bashrc`.
pub const INIT_BASHRC: &'static str = r#"[ -f "$HOME/.bashrc" ] && . "$HOME/.bashrc""#;

/// Stand-in fish init body: only marks the session as started by the
/// bootstrap.
pub const INIT_FISH: &'static str = r#"set -gx TERAX_TERMINAL 1"#;

impl ShellInitScripts {
    /// Stand-in init bodies, each of which only loads the user's own
    /// configuration for its shell. They are not the Terax terminal
    /// integration scripts (not available to this library); callers that
    /// have those pass them to `remote_login_shell_bootstrap_with`.
    pub fn defaults() -> (res: ShellInitScripts)
        ensures
            res.zshenv@ == INIT_ZSHENV@,
            res.zprofile@ == INIT_ZPROFILE@,
            res.zshrc@ == INIT_ZSHRC@,
            res.zlogin@ == INIT_ZLOGIN@,
            res.bashrc@ == INIT_BASHRC@,
            res.fish@ == INIT_FISH@,
    {
        ShellInitScripts {
            zshenv: INIT_ZSHENV.to_owned(),
            zprofile: INIT_ZPROFILE.to_owned(),
            zshrc: INIT_ZSHRC.to_owned(),
            zlogin: INIT_ZLOGIN.to_owned(),
            bashrc: INIT_BASHRC.to_owned(),
            fish: INIT_FISH.to_owned(),
        }
    }
}

/// The login bootstrap script around the given init file bodies: it picks a
/// usable shell (`$SHELL`, else `/bin/bash`, `/usr/bin/bash`, `/bin/sh`),
/// writes the init files for zsh, bash or fish into a temporary directory
/// that is removed on exit, and starts the shell with them.
pub open spec fn bootstrap_text(
    zshenv: Seq<char>,
    zprofile: Seq<char>,
    zshrc: Seq<char>,
    zlogin: Seq<char>,
    bashrc: Seq<char>,
    fish: Seq<char>,
) -> Seq<char> {
    BOOT_START@ + zshenv + BOOT_AFTER_ZSHENV@ + zprofile + BOOT_AFTER_ZPROFILE@ + zshrc
        + BOOT_AFTER_ZSHRC@ + zlogin + BOOT_AFTER_ZLOGIN@ + bashrc + BOOT_AFTER_BASHRC@ + fish
        + BOOT_END@
}

/// The login bootstrap script around the bodies of `scripts`.
pub fn remote_login_shell_bootstrap_with(scripts: &ShellInitScripts) -> (res: String)
    ensures
        res@ == bootstrap_text(
            scripts.zshenv@,
            scripts.zprofile@,
            scripts.zshrc@,
            scripts.zlogin@,
            scripts.bashrc@,
            scripts.fish@,
        ),
{
    let mut out = String::new();
    out.append(BOOT_START);
    out.append(scripts.zshenv.as_str());
    out.append(BOOT_AFTER_ZSHENV);
    out.append(scripts.zprofile.as_str());
    out.append(BOOT_AFTER_ZPROFILE);
    out.append(scripts.zshrc.as_str());
    out.append(BOOT_AFTER_ZSHRC);
    out.append(scripts.zlogin.as_str());
    out.append(BOOT_AFTER_ZLOGIN);
    out.append(scripts.bashrc.as_str());
    out.append(BOOT_AFTER_BASHRC);
    out.append(scripts.fish.as_str());
    out.append(BOOT_END);
    proof {
        assert(out@ =~= bootstrap_text(
            scripts.zshenv@,
            scripts.zprofile@,
            scripts.zshrc@,
            scripts.zlogin@,
            scripts.bashrc@,
            scripts.fish@,
        ));
    }
    out
}

/// The login bootstrap script with the stand-in init bodies of
/// `ShellInitScripts::defaults`.
pub open spec fn default_bootstrap() -> Seq<char> {
    bootstrap_text(
        INIT_ZSHENV@,
        INIT_ZPROFILE@,
        INIT_ZSHRC@,
        INIT_ZLOGIN@,
        INIT_BASHRC@,
        INIT_FISH@,
    )
}

/// The login bootstrap script with the stand-in init bodies of
/// `ShellInitScripts::defaults`.
pub fn remote_login_shell_bootstrap() -> (res: String)
    ensures
        res@ == default_bootstrap(),
{
    let scripts = ShellInitScripts::defaults();
    remote_login_shell_bootstrap_with(&scripts)
}

/// The command line that starts an interactive login shell on the remote
/// host, in `cwd` when given.
pub fn remote_login_command(cwd: Option<&str>) -> (res: String)
    ensures
        res@ == shell_command_spec(opt_view(cwd), default_bootstrap()),
{
    let script = remote_login_shell_bootstrap();
    remote_shell_command(cwd, script.as_str())
}

/// `remote_shell_invocation` puts the command after `sh -lc ` as one shell
/// word, which the shell reads as exactly the command.
pub proof fn lemma_invocation_is_one_word(command: Seq<char>)
    ensures
        shell_invocation_spec(command) == "sh -lc "@ + quoted(command),
        shell_word_value(quoted(command)) == Some(command),
{
    lemma_quote_posix_reads_back(command);
}

} // verus!
