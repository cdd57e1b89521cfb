//! Turning one job string into an invocation.
//!
//! A job is invoked in one of three ways: not at all (dry run), through a
//! shell as `<shell> -c <job>`, or directly, with the job text split on
//! spaces into a program name and its arguments.

use vstd::prelude::*;
use crate::outcome::ExecutionOutcome;
use crate::outcome::dry_run_outcome;
use crate::outcome::spawn_failure_outcome;

verus! {

/// The views of a sequence of strings.
pub open spec fn views_of(ts: Seq<String>) -> Seq<Seq<char>> {
    ts.map_values(|t: String| t@)
}

/// Splitting `s` on spaces, scanned left to right with `cur` the partial
/// token read so far: maximal runs of non-space characters become tokens,
/// runs of spaces separate them, and an empty run contributes nothing.
pub open spec fn split_go(s: Seq<char>, cur: Seq<char>) -> Seq<Seq<char>>
    decreases s.len(),
{
    if s.len() == 0 {
        if cur.len() == 0 {
            Seq::empty()
        } else {
            seq![cur]
        }
    } else if s[0] == ' ' {
        if cur.len() == 0 {
            split_go(s.drop_first(), Seq::empty())
        } else {
            seq![cur] + split_go(s.drop_first(), Seq::empty())
        }
    } else {
        split_go(s.drop_first(), cur.push(s[0]))
    }
}

/// The whitespace tokens of `s`, in order: what direct-exec mode treats as
/// the program name followed by its arguments.
pub open spec fn split_tokens(s: Seq<char>) -> Seq<Seq<char>> {
    split_go(s, Seq::empty())
}

/// No character of `t` is a space.
pub open spec fn space_free(t: Seq<char>) -> bool {
    forall|j: int| 0 <= j < t.len() ==> t[j] != ' '
}

/// Splitting never produces an empty token, nor one holding a space: in
/// particular, a job that splits at all has a non-empty program name, and a
/// blank or empty job splits to nothing rather than to an empty name.
pub proof fn lemma_tokens_well_formed(s: Seq<char>)
    ensures
        forall|k: int| 0 <= k < split_tokens(s).len()
            ==> (#[trigger] split_tokens(s)[k]).len() > 0
                && space_free(split_tokens(s)[k]),
{
    lemma_split_go_tokens(s, Seq::empty());
}

proof fn lemma_split_go_tokens(s: Seq<char>, cur: Seq<char>)
    requires
        space_free(cur),
    ensures
        forall|k: int| 0 <= k < split_go(s, cur).len()
            ==> (#[trigger] split_go(s, cur)[k]).len() > 0
                && space_free(split_go(s, cur)[k]),
    decreases s.len(),
{
    if s.len() == 0 {
    } else if s[0] == ' ' {
        lemma_split_go_tokens(s.drop_first(), Seq::empty());
        if cur.len() > 0 {
            let rest = split_go(s.drop_first(), Seq::empty());
            let r = seq![cur] + rest;
            assert(split_go(s, cur) == r);
            assert forall|k: int| 0 <= k < r.len() implies (#[trigger] r[k]).len() > 0
                && space_free(r[k]) by {
                if k > 0 {
                    assert(r[k] == rest[k - 1]);
                }
            }
        }
    } else {
        assert(space_free(cur.push(s[0])));
        lemma_split_go_tokens(s.drop_first(), cur.push(s[0]));
        assert forall|k: int| 0 <= k < split_go(s, cur).len() implies (#[trigger] split_go(
            s,
            cur,
        )[k]).len() > 0 && space_free(split_go(s, cur)[k]) by {
            assert(split_go(s, cur)[k] == split_go(s.drop_first(), cur.push(s[0]))[k]);
        }
    }
}

/// Splits a job string on spaces into its tokens.
pub fn split_job(s: &str) -> (tokens: Vec<String>)
    ensures
        views_of(tokens@) == split_tokens(s@),
{
    let n = s.unicode_len();
    let mut tokens: Vec<String> = Vec::new();
    let mut start: usize = 0;
    let mut i: usize = 0;
    proof {
        assert(s@.skip(0) =~= s@);
        assert(s@.subrange(0, 0) =~= Seq::<char>::empty());
        assert(views_of(tokens@) =~= Seq::<Seq<char>>::empty());
    }
    while i < n
        invariant
            start <= i <= n,
            n == s@.len(),
            views_of(tokens@) + split_go(s@.skip(i as int), s@.subrange(start as int, i as int))
                == split_tokens(s@),
        decreases n - i,
    {
        let c = s.get_char(i);
        let ghost cur = s@.subrange(start as int, i as int);
        proof {
            assert(s@.skip(i as int)[0] == s@[i as int]);
            assert(s@.skip(i as int).drop_first() =~= s@.skip(i as int + 1));
        }
        if c == ' ' {
            if start < i {
                let tok = s.substring_char(start, i);
                let owned = String::from_str(tok);
                proof {
                    assert(views_of(tokens@.push(owned))
                        =~= views_of(tokens@) + seq![cur]);
                }
                tokens.push(owned);
            }
            proof {
                assert(s@.subrange(i as int + 1, i as int + 1) =~= Seq::<char>::empty());
            }
            start = i + 1;
            i = i + 1;
        } else {
            proof {
                assert(cur.push(s@[i as int])
                    =~= s@.subrange(start as int, i as int + 1));
            }
            i = i + 1;
        }
    }
    if start < n {
        let tok = s.substring_char(start, n);
        let owned = String::from_str(tok);
        proof {
            assert(s@.skip(n as int).len() == 0);
            assert(views_of(tokens@.push(owned))
                =~= views_of(tokens@) + seq![s@.subrange(start as int, n as int)]);
        }
        tokens.push(owned);
    } else {
        proof {
            assert(s@.skip(n as int).len() == 0);
            assert(s@.subrange(start as int, start as int).len() == 0);
            assert(views_of(tokens@) + Seq::<Seq<char>>::empty() =~= views_of(tokens@));
        }
    }
    tokens
}

/// How one job is to be invoked.
pub enum InvocationPlan {
    /// Invoke nothing and use this outcome as the job's result (dry run).
    Skip { outcome: ExecutionOutcome },
    /// Start `program` with `args` and wait for it.
    Spawn { program: String, args: Vec<String> },
    /// The job cannot be invoked (direct-exec mode with no program name);
    /// use this failing outcome as its result.
    Reject { outcome: ExecutionOutcome },
}

/// Decides how a job is invoked. In a dry run nothing is invoked and the
/// job succeeds vacuously. In shell mode the job text is handed whole to
/// `<shell> -c`. In direct-exec mode the text is split on spaces; its first
/// token is the program, the rest are arguments, and a text with no tokens
/// is rejected with a synthetic failure.
pub fn plan_invocation(dry_run: bool, job: &str, shell: &Option<String>) -> (p: InvocationPlan)
    ensures
        dry_run ==> (p matches InvocationPlan::Skip { outcome }
            && outcome.code == Some(0i32)
            && outcome.stdout@ == Seq::<u8>::empty()
            && outcome.stderr@ == Seq::<u8>::empty()),
        !dry_run && (*shell) is Some ==> (p matches InvocationPlan::Spawn { program, args }
            && program@ == (*shell)->0@
            && views_of(args@) == seq![("-c")@, job@]),
        !dry_run && (*shell) is None && split_tokens(job@).len() == 0 ==> (p matches
            InvocationPlan::Reject { outcome }
            && !outcome.is_success()
            && outcome.code == Some(1i32)
            && outcome.stdout@ == Seq::<u8>::empty()
            && outcome.stderr@ == Seq::<u8>::empty()),
        !dry_run && (*shell) is None && split_tokens(job@).len() > 0 ==> (p matches
            InvocationPlan::Spawn { program, args }
            && program@ == split_tokens(job@)[0]
            && program@.len() > 0
            && views_of(args@) == split_tokens(job@).drop_first()),
{
    if dry_run {
        InvocationPlan::Skip { outcome: dry_run_outcome() }
    } else {
        match shell {
            Some(sh) => {
                let mut args: Vec<String> = Vec::new();
                args.push(String::from_str("-c"));
                args.push(String::from_str(job));
                proof {
                    assert(views_of(args@) =~= seq![("-c")@, job@]);
                }
                InvocationPlan::Spawn { program: sh.clone(), args }
            },
            None => {
                let mut tokens = split_job(job);
                if tokens.len() == 0 {
                    InvocationPlan::Reject { outcome: spawn_failure_outcome() }
                } else {
                    let program = tokens.remove(0);
                    proof {
                        assert(views_of(tokens@) =~= split_tokens(job@).drop_first());
                        assert(program@ == split_tokens(job@)[0]);
                        lemma_tokens_well_formed(job@);
                    }
                    InvocationPlan::Spawn { program, args: tokens }
                }
            },
        }
    }
}

} // verus!
