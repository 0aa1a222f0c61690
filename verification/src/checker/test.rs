//! The test-suite check (`cargo test`).

use super::{
    cargo_command, combined_output, command_view, first_n, make_result, output_text, push_arg,
    push_args, push_manifest, result_is, texts, with_flag, with_manifest, CheckResult, Checker,
    CommandSpec,
};
use crate::config::{opt_text, Config};
use crate::text::{between, char_rows, chars_of, lines, owned, part_between, split_lines, trim, trimmed};
use std::time::Duration;
use vstd::prelude::*;

verus! {

/// Runs the test suite.
pub struct TestChecker;

/// The arguments given to cargo: `test`, `--workspace` when asked, then the
/// manifest path when one is given, then the extra arguments of the
/// configuration.
pub open spec fn test_args(config: Config) -> Seq<Seq<char>> {
    with_manifest(
        with_flag(seq!["test"@], config.workspace, "--workspace"@),
        opt_text(config.manifest_path),
    ) + texts(config.extra_args.test@)
}

/// The name of the test that an output line reports as failed: the line,
/// trimmed, reads `test <name> ... FAILED`.
pub open spec fn failed_test_name(l: Seq<char>) -> Option<Seq<char>> {
    between(trim(l), "test "@, " ... FAILED"@)
}

/// The names of the failed tests that the lines `ls` report, in order.
pub open spec fn failed_test_names(ls: Seq<Seq<char>>) -> Seq<Seq<char>>
    decreases ls.len(),
{
    if ls.len() == 0 {
        seq![]
    } else {
        let r = failed_test_names(ls.drop_last());
        match failed_test_name(ls.last()) {
            Some(n) => r.push(n),
            None => r,
        }
    }
}

/// The errors of a failed test run: the names of the first ten failed
/// tests that its output reports, or a fixed message when it reports none.
pub open spec fn test_errors(success: bool, output: Seq<char>) -> Seq<Seq<char>> {
    let names = first_n(failed_test_names(lines(output)), 10);
    if success {
        seq![]
    } else if names.len() == 0 {
        seq!["Some tests failed"@]
    } else {
        names
    }
}

proof fn lemma_names_append(a: Seq<Seq<char>>, b: Seq<Seq<char>>)
    ensures
        failed_test_names(a + b) == failed_test_names(a) + failed_test_names(b),
    decreases b.len(),
{
    if b.len() == 0 {
        assert(a + b =~= a);
        assert(failed_test_names(a) + failed_test_names(b) =~= failed_test_names(a));
    } else {
        let init = b.drop_last();
        lemma_names_append(a, init);
        assert((a + b).drop_last() =~= a + init);
        assert((a + b).last() == b.last());
        match failed_test_name(b.last()) {
            Some(n) => {
                assert(failed_test_names(a) + failed_test_names(init).push(n) =~= (failed_test_names(a)
                    + failed_test_names(init)).push(n));
            },
            None => {},
        }
    }
}

/// A failed run reports the name of every test that an output line reports
/// as failed, wherever the line stands, as long as fewer than ten such
/// lines come before it.
pub proof fn lemma_failed_test_reported(output: Seq<char>, j: int, n: Seq<char>)
    requires
        0 <= j < lines(output).len(),
        failed_test_name(lines(output)[j]) == Some(n),
        failed_test_names(lines(output).take(j)).len() < 10,
    ensures
        test_errors(false, output).contains(n),
{
    let ls = lines(output);
    let before = ls.take(j);
    let line = seq![ls[j]];
    let after = ls.skip(j + 1);
    assert(ls =~= before + line + after);
    lemma_names_append(before + line, after);
    lemma_names_append(before, line);
    assert(line.drop_last() =~= Seq::<Seq<char>>::empty());
    assert(line.last() == ls[j]);
    assert(failed_test_names(Seq::<Seq<char>>::empty()) =~= Seq::<Seq<char>>::empty());
    assert(failed_test_names(line) == failed_test_names(line.drop_last()).push(n));
    assert(failed_test_names(line) =~= seq![n]);
    let names = failed_test_names(ls);
    let m = failed_test_names(before).len();
    assert(names == failed_test_names(before) + seq![n] + failed_test_names(after));
    assert(names[m as int] == n);
    let shown = first_n(names, 10);
    assert(shown.len() > m);
    assert(shown[m as int] == n);
}

/// Every error of a failed run that names a test is the name that some
/// output line reports as failed.
pub proof fn lemma_errors_are_failed_tests(output: Seq<char>, e: Seq<char>)
    requires
        test_errors(false, output).contains(e),
        e != "Some tests failed"@,
    ensures
        exists|j: int| 0 <= j < lines(output).len() && failed_test_name(#[trigger] lines(output)[j])
            == Some(e),
{
    lemma_names_from_lines(lines(output));
    let names = failed_test_names(lines(output));
    let i = choose|i: int| 0 <= i < test_errors(false, output).len() && test_errors(false, output)[i] == e;
    if names.len() > 0 {
        assert(first_n(names, 10)[i] == names[i]);
    }
}

proof fn lemma_names_from_lines(ls: Seq<Seq<char>>)
    ensures
        forall|i: int| 0 <= i < failed_test_names(ls).len() ==> exists|j: int|
            0 <= j < ls.len() && failed_test_name(#[trigger] ls[j]) == Some(
                #[trigger] failed_test_names(ls)[i],
            ),
    decreases ls.len(),
{
    if ls.len() > 0 {
        let init = ls.drop_last();
        lemma_names_from_lines(init);
        let r = failed_test_names(init);
        let t = failed_test_names(ls);
        assert forall|i: int| 0 <= i < t.len() implies exists|j: int|
            0 <= j < ls.len() && failed_test_name(#[trigger] ls[j]) == Some(#[trigger] t[i]) by {
            if i < r.len() {
                assert(t[i] == r[i]);
                let j = choose|j: int| 0 <= j < init.len() && failed_test_name(#[trigger] init[j]) == Some(r[i]);
                assert(ls[j] == init[j]);
            } else {
                assert(ls[ls.len() - 1] == ls.last());
            }
        }
    }
}

/// The errors of a test run that succeeded or not and wrote `output`.
pub fn test_error_list(success: bool, output: &String) -> (v: Vec<String>)
    ensures
        texts(v@) == test_errors(success, output@),
{
    let mut v: Vec<String> = Vec::new();
    if success {
        assert(texts(v@) =~= Seq::<Seq<char>>::empty());
        return v;
    }
    let chars = chars_of(output.as_str());
    let ls = split_lines(chars.as_slice());
    let head = chars_of("test ");
    let tail = chars_of(" ... FAILED");
    let ghost all = char_rows(ls@);
    let mut i: usize = 0;
    assert(all.take(0) =~= Seq::<Seq<char>>::empty());
    while i < ls.len()
        invariant
            all == char_rows(ls@),
            all == lines(output@),
            head@ == "test "@,
            tail@ == " ... FAILED"@,
            i <= ls@.len(),
            texts(v@) == first_n(failed_test_names(all.take(i as int)), 10),
        decreases ls@.len() - i,
    {
        let t = trimmed(ls[i].as_slice());
        let found = part_between(t.as_slice(), head.as_slice(), tail.as_slice());
        proof {
            assert(all.take(i + 1).drop_last() =~= all.take(i as int));
            assert(all.take(i + 1).last() == ls@[i as int]@);
        }
        match found {
            Some(name) => {
                if v.len() < 10 {
                    proof {
                        assert(texts(v@.push(name)) =~= texts(v@).push(name@));
                    }
                    v.push(name);
                }
            },
            None => {},
        }
        i = i + 1;
    }
    assert(all.take(ls@.len() as int) =~= all);
    if v.len() == 0 {
        v.push(owned("Some tests failed"));
        assert(texts(v@) =~= seq!["Some tests failed"@]);
    }
    v
}

impl Checker for TestChecker {
    fn name(&self) -> (n: &str)
        ensures
            n@ == "test"@,
    {
        "test"
    }

    fn command(&self, config: &Config) -> (c: CommandSpec)
        ensures
            command_view(c) == ("cargo"@, test_args(*config), Some(config.timeout)),
    {
        let mut args: Vec<String> = Vec::new();
        push_arg(&mut args, "test");
        if config.workspace {
            push_arg(&mut args, "--workspace");
        }
        push_manifest(&mut args, &config.manifest_path);
        push_args(&mut args, &config.extra_args.test);
        cargo_command(args, config.timeout)
    }

    fn check_result(&self, success: bool, stdout: &[u8], stderr: &[u8], duration: Duration) -> (r:
        CheckResult)
        ensures
            result_is(
                r,
                "test"@,
                success,
                duration,
                output_text(stdout@, stderr@),
                test_errors(success, output_text(stdout@, stderr@)),
            ),
    {
        let output = combined_output(stdout, stderr);
        let errors = test_error_list(success, &output);
        make_result("test", success, duration, output, errors)
    }
}

} // verus!
