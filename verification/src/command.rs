//! Building the child command for a new session.
//!
//! Every session runs the same shell, always gets a `TERM` capability
//! variable so programs render correctly, starts in the caller's working
//! directory if one was given, and receives the caller's environment
//! overrides with the last value winning on a repeated key.

use vstd::prelude::*;
use portable_pty::CommandBuilder;

use crate::backend::cb_cwd;
use crate::backend::cb_prog;
use crate::backend::cb_env;
use crate::backend::cmd_cwd;
use crate::backend::cmd_env;
use crate::backend::cmd_get_env;
use crate::backend::cmd_new;

verus! {

/// What a list of environment overrides amounts to once applied in order:
/// each key mapped to the value of its last occurrence.
pub open spec fn override_map(l: Seq<(String, String)>) -> Map<Seq<char>, Seq<char>>
    decreases l.len(),
{
    if l.len() == 0 {
        Map::empty()
    } else {
        override_map(l.drop_last()).insert(l.last().0@, l.last().1@)
    }
}

/// The environment table after applying the overrides in `l`, in order, on
/// top of `base`.
pub open spec fn apply_overrides(
    base: Map<Seq<char>, Seq<char>>,
    l: Seq<(String, String)>,
) -> Map<Seq<char>, Seq<char>>
    decreases l.len(),
{
    if l.len() == 0 {
        base
    } else {
        apply_overrides(base, l.drop_last()).insert(l.last().0@, l.last().1@)
    }
}

/// The overrides applied on top of a base table behave as their
/// last-write-wins summary: overridden keys take the summary's value, and
/// every other key keeps whatever the base table had.
pub proof fn lemma_apply_overrides(base: Map<Seq<char>, Seq<char>>, l: Seq<(String, String)>)
    ensures
        forall|k: Seq<char>| #[trigger]
            override_map(l).contains_key(k) ==> apply_overrides(base, l).contains_key(k)
                && apply_overrides(base, l)[k] == override_map(l)[k],
        forall|k: Seq<char>|
            !(#[trigger] override_map(l).contains_key(k)) ==> (apply_overrides(
                base,
                l,
            ).contains_key(k) <==> base.contains_key(k)) && (base.contains_key(k)
                ==> apply_overrides(base, l)[k] == base[k]),
    decreases l.len(),
{
    if l.len() > 0 {
        let prev = l.drop_last();
        lemma_apply_overrides(base, prev);
        assert forall|k: Seq<char>| #[trigger]
            override_map(l).contains_key(k) implies apply_overrides(base, l).contains_key(k)
            && apply_overrides(base, l)[k] == override_map(l)[k] by {
            if k != l.last().0@ {
                assert(override_map(prev).contains_key(k));
            }
        }
        assert forall|k: Seq<char>|
            !(#[trigger] override_map(l).contains_key(k)) implies (apply_overrides(
            base,
            l,
        ).contains_key(k) <==> base.contains_key(k)) && (base.contains_key(k)
            ==> apply_overrides(base, l)[k] == base[k]) by {
            assert(!override_map(prev).contains_key(k));
            assert(k != l.last().0@);
        }
    }
}

/// The overrides a caller handed in, as a sequence; no argument means none.
pub open spec fn overrides_of(env: Option<Vec<(String, String)>>) -> Seq<(String, String)> {
    match env {
        Some(l) => l@,
        None => Seq::empty(),
    }
}

/// The value a prepared command will give the environment variable `key`,
/// if it sets one.
pub fn command_env_value(c: &CommandBuilder, key: &String) -> (r: Option<String>)
    ensures
        r is Some <==> cb_env(*c).contains_key(key@),
        r matches Some(v) ==> v@ == cb_env(*c)[key@],
{
    cmd_get_env(c, key)
}

/// Prepares the shell command for a new session: fixed shell, `TERM` set for
/// correct rendering, the caller's working directory if given, and the
/// caller's environment overrides applied in order, last write winning.
pub fn build_command(cwd: &Option<String>, env: &Option<Vec<(String, String)>>) -> (c:
    CommandBuilder)
    ensures
        cb_prog(c) == "bash"@,
        cb_cwd(c) == (match cwd {
            Some(d) => Some(d@),
            None => None::<Seq<char>>,
        }),
        forall|k: Seq<char>| #[trigger]
            override_map(overrides_of(*env)).contains_key(k) ==> cb_env(c).contains_key(k)
                && cb_env(c)[k] == override_map(overrides_of(*env))[k],
        !override_map(overrides_of(*env)).contains_key("TERM"@) ==> cb_env(c).contains_key("TERM"@)
            && cb_env(c)["TERM"@] == "xterm-256color"@,
{
    let shell: String = "bash".to_owned();
    let mut c = cmd_new(&shell);
    let term_key: String = "TERM".to_owned();
    let term_value: String = "xterm-256color".to_owned();
    cmd_env(&mut c, &term_key, &term_value);
    if let Some(dir) = cwd {
        cmd_cwd(&mut c, dir);
    }
    let ghost base: Map<Seq<char>, Seq<char>> = cb_env(c);
    let ghost cwd_now: Option<Seq<char>> = cb_cwd(c);
    let ghost prog_now: Seq<char> = cb_prog(c);
    if let Some(list) = env {
        let mut i: usize = 0;
        while i < list.len()
            invariant
                i <= list.len(),
                cb_env(c) == apply_overrides(base, list@.take(i as int)),
                cb_cwd(c) == cwd_now,
                cb_prog(c) == prog_now,
                prog_now == "bash"@,
                base.contains_key("TERM"@) && base["TERM"@] == "xterm-256color"@,
            decreases list.len() - i,
        {
            let pair = &list[i];
            proof {
                assert(list@.take(i + 1).drop_last() =~= list@.take(i as int));
            }
            cmd_env(&mut c, &pair.0, &pair.1);
            i += 1;
        }
        proof {
            assert(list@.take(list@.len() as int) =~= list@);
            lemma_apply_overrides(base, list@);
        }
    } else {
        proof {
            lemma_apply_overrides(base, Seq::empty());
        }
    }
    c
}

} // verus!
