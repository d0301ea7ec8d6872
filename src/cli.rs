//! Command-line flags and targets.
use vstd::prelude::*;
use crate::error::RunError;

verus! {

/// The three display flags.
#[derive(Clone, Copy, PartialEq, Eq, Structural, Debug)]
pub struct Options {
    /// Include entries whose name begins with `.`.
    pub show_dots: bool,
    /// Show metadata instead of a directory's contents.
    pub only_info: bool,
    /// Show metadata in addition to a directory's contents.
    pub append_info: bool,
}

/// What the command line asks for, in terms of views.
pub enum Parsed {
    Help,
    Run(Options, Seq<Seq<char>>),
    Unknown(char, Seq<char>),
}

/// What the command line asks for.
pub enum Command {
    /// Print the usage text and stop.
    Help,
    /// Process the targets, in order, with the given options.
    Run { options: Options, targets: Vec<String> },
}

pub open spec fn no_flags() -> Options {
    Options { show_dots: false, only_info: false, append_info: false }
}

/// The effect of one flag character; `None` for an unknown one. `I` sets
/// append mode and clears info-only mode; `i` sets info-only mode only
/// where append mode was never set.
pub open spec fn apply_flag(o: Options, c: char) -> Option<Options> {
    if c == 'a' {
        Some(Options { show_dots: true, ..o })
    } else if c == 'i' {
        Some(Options { only_info: o.only_info || !o.append_info, ..o })
    } else if c == 'I' {
        Some(Options { only_info: false, append_info: true, ..o })
    } else {
        None
    }
}

/// The effect of a cluster of flag characters, left to right; the first
/// unknown character is the error.
pub open spec fn apply_cluster(o: Options, s: Seq<char>) -> Result<Options, char>
    decreases s.len(),
{
    if s.len() == 0 {
        Ok(o)
    } else {
        match apply_flag(o, s[0]) {
            None => Err(s[0]),
            Some(o2) => apply_cluster(o2, s.drop_first()),
        }
    }
}

/// Once append mode is set, no later cluster of flags turns info-only mode
/// back on, nor append mode off.
pub proof fn lemma_append_info_sticky(o: Options, s: Seq<char>)
    requires
        o.append_info,
        !o.only_info,
    ensures
        apply_cluster(o, s) matches Ok(o2) ==> o2.append_info && !o2.only_info,
    decreases s.len(),
{
    if s.len() > 0 {
        if let Some(o2) = apply_flag(o, s[0]) {
            lemma_append_info_sticky(o2, s.drop_first());
        }
    }
}

/// The target used when none is given.
pub open spec fn default_target() -> Seq<char> {
    seq!['.', '/']
}

/// A token that starts with `-` and is not `--help` is a flag cluster.
pub open spec fn is_flag_token(t: Seq<char>) -> bool {
    t.len() > 0 && t[0] == '-'
}

/// Reads `args` left to right from options `o`, having collected `targets`.
pub open spec fn parse_from(args: Seq<Seq<char>>, o: Options, targets: Seq<Seq<char>>) -> Parsed
    decreases args.len(),
{
    if args.len() == 0 {
        Parsed::Run(
            o,
            if targets.len() == 0 {
                seq![default_target()]
            } else {
                targets
            },
        )
    } else {
        let a = args[0];
        if a == "--help"@ {
            Parsed::Help
        } else if is_flag_token(a) {
            match apply_cluster(o, a.drop_first()) {
                Ok(o2) => parse_from(args.drop_first(), o2, targets),
                Err(c) => Parsed::Unknown(c, a),
            }
        } else {
            parse_from(args.drop_first(), o, targets.push(a))
        }
    }
}

/// The meaning of a whole command line (without the program name).
pub open spec fn parse_spec(args: Seq<Seq<char>>) -> Parsed {
    parse_from(args, no_flags(), Seq::empty())
}

/// The current directory, the target when none is given.
pub fn cur_dir() -> (r: String)
    ensures
        r@ == default_target(),
{
    let r = String::from_str("./");
    proof {
        reveal_strlit("./");
        assert(r@ =~= default_target());
    }
    r
}

fn str_eq(a: &str, b: &str) -> (r: bool)
    ensures
        r == (a@ == b@),
{
    let n = a.unicode_len();
    if n != b.unicode_len() {
        return false;
    }
    let mut i: usize = 0;
    while i < n
        invariant
            n == a@.len(),
            n == b@.len(),
            i <= n,
            a@.subrange(0, i as int) == b@.subrange(0, i as int),
        decreases n - i,
    {
        if a.get_char(i) != b.get_char(i) {
            return false;
        }
        proof {
            assert(a@.subrange(0, i as int + 1) =~= a@.subrange(0, i as int).push(a@[i as int]));
            assert(b@.subrange(0, i as int + 1) =~= b@.subrange(0, i as int).push(b@[i as int]));
        }
        i = i + 1;
    }
    proof {
        assert(a@ =~= a@.subrange(0, n as int));
        assert(b@ =~= b@.subrange(0, n as int));
    }
    true
}

/// Applies the flag characters of `token` after its leading `-`.
fn apply_token(o: Options, token: &str) -> (r: Result<Options, char>)
    requires
        token@.len() > 0,
    ensures
        r == apply_cluster(o, token@.drop_first()),
{
    let n = token.unicode_len();
    let mut cur = o;
    let mut i: usize = 1;
    while i < n
        invariant
            n == token@.len(),
            1 <= i <= n,
            apply_cluster(cur, token@.subrange(i as int, n as int)) == apply_cluster(
                o,
                token@.drop_first(),
            ),
        decreases n - i,
    {
        let c = token.get_char(i);
        proof {
            assert(token@.subrange(i as int, n as int).drop_first() =~= token@.subrange(
                i as int + 1,
                n as int,
            ));
        }
        if c == 'a' {
            cur = Options { show_dots: true, ..cur };
        } else if c == 'i' {
            cur = Options { only_info: cur.only_info || !cur.append_info, ..cur };
        } else if c == 'I' {
            cur = Options { only_info: false, append_info: true, ..cur };
        } else {
            return Err(c);
        }
        i = i + 1;
    }
    proof {
        assert(token@.subrange(i as int, n as int) =~= Seq::<char>::empty());
    }
    Ok(cur)
}

/// Reads the command line (without the program name) left to right:
/// `--help` stops at once with `Help`; a token starting with `-` is a
/// cluster of flags `a`, `i`, `I`, and any other character in it is a usage
/// error naming that character and the token; every other token is a
/// target. With no target, the current directory is the one target.
pub fn parse_args(args: &Vec<String>) -> (r: Result<Command, RunError>)
    ensures
        match parse_spec(args.deep_view()) {
            Parsed::Help => r matches Ok(Command::Help),
            Parsed::Run(o, t) => r matches Ok(Command::Run { options, targets }) && options == o
                && targets.deep_view() == t,
            Parsed::Unknown(c, a) => r matches Err(RunError::Usage { flag, token }) && flag == c
                && token@ == a,
        },
{
    let ghost all = args.deep_view();
    let mut o = Options { show_dots: false, only_info: false, append_info: false };
    let mut targets: Vec<String> = Vec::new();
    let mut i: usize = 0;
    proof {
        assert(all.subrange(0, all.len() as int) =~= all);
        assert(targets.deep_view() =~= Seq::<Seq<char>>::empty());
    }
    while i < args.len()
        invariant
            all == args.deep_view(),
            i <= args.len(),
            parse_from(all.subrange(i as int, all.len() as int), o, targets.deep_view())
                == parse_spec(all),
        decreases args.len() - i,
    {
        let ghost rest = all.subrange(i as int, all.len() as int);
        proof {
            assert(rest.drop_first() =~= all.subrange(i as int + 1, all.len() as int));
            assert(rest[0] == args@[i as int]@);
        }
        let arg = &args[i];
        proof {
            reveal_strlit("--help");
        }
        if str_eq(arg.as_str(), "--help") {
            return Ok(Command::Help);
        }
        if arg.unicode_len() > 0 && arg.as_str().get_char(0) == '-' {
            match apply_token(o, arg.as_str()) {
                Ok(o2) => {
                    o = o2;
                },
                Err(c) => {
                    return Err(RunError::Usage { flag: c, token: arg.clone() });
                },
            }
        } else {
            let ghost before = targets.deep_view();
            targets.push(arg.clone());
            proof {
                assert(targets.deep_view() =~= before.push(rest[0]));
            }
        }
        i = i + 1;
    }
    proof {
        assert(all.subrange(i as int, all.len() as int) =~= Seq::<Seq<char>>::empty());
    }
    if targets.len() == 0 {
        targets.push(cur_dir());
        proof {
            assert(targets.deep_view() =~= seq![default_target()]);
        }
    }
    Ok(Command::Run { options: o, targets })
}

} // verus!
