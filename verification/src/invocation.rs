//! Building the child invocation and mapping its exit status.

use vstd::prelude::*;

use crate::errors::ExitStatusKind;

verus! {

/// The argument vector handed to the interactive program: the private-key
/// flag with the staged key path, the profile's extra arguments, the
/// caller's trailing arguments, and the destination when one was resolved.
pub open spec fn invocation_spec(
    key_path: Seq<char>,
    extra_args: Seq<Seq<char>>,
    trailing_args: Seq<Seq<char>>,
    destination: Option<Seq<char>>,
) -> Seq<Seq<char>> {
    seq!["-i"@, key_path] + extra_args + trailing_args + (match destination {
        Some(d) => seq![d],
        None => Seq::empty(),
    })
}

/// The interactive remote-shell program the session runs.
pub fn interactive_program() -> (r: String)
    ensures
        r@ == "ssh"@,
{
    String::from_str("ssh")
}

/// Build the argument vector for the child invocation.
pub fn build_invocation(
    key_path: &String,
    extra_args: &Vec<String>,
    trailing_args: &Vec<String>,
    destination: &Option<String>,
) -> (argv: Vec<String>)
    ensures
        argv.deep_view() == invocation_spec(
            key_path@,
            extra_args.deep_view(),
            trailing_args.deep_view(),
            match destination {
                Some(d) => Some(d@),
                None => None,
            },
        ),
{
    let mut argv: Vec<String> = Vec::new();
    argv.push(String::from_str("-i"));
    argv.push(key_path.clone());
    append_all(&mut argv, extra_args);
    append_all(&mut argv, trailing_args);
    match destination {
        Some(d) => {
            argv.push(d.clone());
        },
        None => {},
    }
    proof {
        assert(argv.deep_view() =~= invocation_spec(
            key_path@,
            extra_args.deep_view(),
            trailing_args.deep_view(),
            match destination {
                Some(d) => Some(d@),
                None => None,
            },
        ));
    }
    argv
}

/// Append a copy of every element of `src` to `dst`, in order.
fn append_all(dst: &mut Vec<String>, src: &Vec<String>)
    ensures
        final(dst)@ == old(dst)@ + src@,
{
    let n = src.len();
    let mut i: usize = 0;
    while i < n
        invariant
            n == src@.len(),
            i <= n,
            dst@ == old(dst)@ + src@.take(i as int),
        decreases n - i,
    {
        dst.push(src[i].clone());
        proof {
            assert(src@.take(i + 1 as int) =~= src@.take(i as int).push(src@[i as int]));
            assert(old(dst)@ + src@.take(i + 1 as int) =~= (old(dst)@ + src@.take(i as int)).push(
                src@[i as int],
            ));
        }
        i = i + 1;
    }
    proof {
        assert(src@.take(n as int) =~= src@);
    }
}

/// The process exit code reported for a finished child.
///
/// A normal exit mirrors the child's own code. A child terminated by a
/// signal is reported as 128 plus the signal number, the usual shell
/// convention; that range is reserved for signal deaths and is always
/// nonzero.
pub fn process_exit_code(status: &ExitStatusKind) -> (code: u8)
    requires
        *status matches ExitStatusKind::Exited { code } ==> 0 <= code <= 255,
        *status matches ExitStatusKind::Signaled { signal } ==> 1 <= signal <= 64,
    ensures
        *status matches ExitStatusKind::Exited { code: c } ==> code == c,
        *status matches ExitStatusKind::Signaled { signal } ==> code == 128 + signal,
{
    match status {
        ExitStatusKind::Exited { code } => *code as u8,
        ExitStatusKind::Signaled { signal } => (128 + *signal) as u8,
    }
}

/// The signals that count as a termination request for the supervising
/// process: hangup, interrupt, quit and terminate, by their conventional
/// numbers.
pub fn termination_signals() -> (v: Vec<i32>)
    ensures
        v@ == seq![1i32, 2i32, 3i32, 15i32],
{
    let mut v: Vec<i32> = Vec::new();
    v.push(1);
    v.push(2);
    v.push(3);
    v.push(15);
    proof {
        assert(v@ =~= seq![1i32, 2i32, 3i32, 15i32]);
    }
    v
}

} // verus!
