//! Which checks a run performs, and how their results are gathered.
//!
//! The checks themselves run in parallel outside this library; what comes
//! back from them, in the order they finish, is handed to
//! `collect_results`.

use crate::checker::build_check::build_args;
use crate::checker::clippy::{clippy_args, clippy_errors};
use crate::checker::fmt::fmt_args;
use crate::checker::test::{test_args, test_errors};
use crate::checker::custom::custom_failure;
use crate::checker::{
    command_view, output_text, result_is, single_error, BuildChecker, CheckResult, Checker,
    ClippyChecker, CommandSpec, CustomChecker, FmtChecker, TestChecker,
};
use crate::config::{copy_custom_config, custom_entry, customs_view, distinct_names, Config};
use crate::text::owned;
use crate::error::DevCheckError;
use crate::text::chars_of;
use std::time::Duration;
use vstd::prelude::*;

verus! {

broadcast use vstd::seq_lib::group_to_multiset_ensures;

/// One of the built-in checks.
#[derive(Debug, Clone, Copy, PartialEq, Eq, Structural)]
pub enum CheckKind {
    Fmt,
    Clippy,
    Test,
    Build,
}

/// The name of a built-in check.
pub open spec fn kind_name(k: CheckKind) -> Seq<char> {
    match k {
        CheckKind::Fmt => "fmt"@,
        CheckKind::Clippy => "clippy"@,
        CheckKind::Test => "test"@,
        CheckKind::Build => "build"@,
    }
}

/// The cargo arguments of a built-in check under `config`.
pub open spec fn kind_args(k: CheckKind, config: Config) -> Seq<Seq<char>> {
    match k {
        CheckKind::Fmt => fmt_args(config),
        CheckKind::Clippy => clippy_args(config),
        CheckKind::Test => test_args(config),
        CheckKind::Build => build_args(config),
    }
}

/// The errors a built-in check reports for a run that succeeded or not and
/// wrote `output`.
pub open spec fn kind_errors(k: CheckKind, success: bool, output: Seq<char>) -> Seq<Seq<char>> {
    match k {
        CheckKind::Fmt => single_error(success, "Formatting check failed"@),
        CheckKind::Clippy => clippy_errors(success, output),
        CheckKind::Test => test_errors(success, output),
        CheckKind::Build => single_error(success, "Build failed"@),
    }
}

impl CheckKind {
    /// The check's name.
    pub fn name(&self) -> (n: &str)
        ensures
            n@ == kind_name(*self),
    {
        match self {
            CheckKind::Fmt => FmtChecker.name(),
            CheckKind::Clippy => ClippyChecker.name(),
            CheckKind::Test => TestChecker.name(),
            CheckKind::Build => BuildChecker.name(),
        }
    }

    /// The cargo command that performs the check under `config`.
    pub fn command(&self, config: &Config) -> (c: CommandSpec)
        ensures
            command_view(c) == ("cargo"@, kind_args(*self, *config), Some(config.timeout)),
    {
        match self {
            CheckKind::Fmt => FmtChecker.command(config),
            CheckKind::Clippy => ClippyChecker.command(config),
            CheckKind::Test => TestChecker.command(config),
            CheckKind::Build => BuildChecker.command(config),
        }
    }

    /// The result of the check from its command's success, output and
    /// running time.
    pub fn check_result(&self, success: bool, stdout: &[u8], stderr: &[u8], duration: Duration) -> (r:
        CheckResult)
        ensures
            result_is(
                r,
                kind_name(*self),
                success,
                duration,
                output_text(stdout@, stderr@),
                kind_errors(*self, success, output_text(stdout@, stderr@)),
            ),
    {
        match self {
            CheckKind::Fmt => FmtChecker.check_result(success, stdout, stderr, duration),
            CheckKind::Clippy => ClippyChecker.check_result(success, stdout, stderr, duration),
            CheckKind::Test => TestChecker.check_result(success, stdout, stderr, duration),
            CheckKind::Build => BuildChecker.check_result(success, stdout, stderr, duration),
        }
    }
}

/// The checks that `config` enables, in the order fmt, clippy, test, build.
pub open spec fn planned(config: Config) -> Seq<CheckKind> {
    let a = if config.run_fmt {
        seq![CheckKind::Fmt]
    } else {
        seq![]
    };
    let b = if config.run_clippy {
        a.push(CheckKind::Clippy)
    } else {
        a
    };
    let c = if config.run_test {
        b.push(CheckKind::Test)
    } else {
        b
    };
    if config.run_build {
        c.push(CheckKind::Build)
    } else {
        c
    }
}

/// The checks that a run under `config` starts.
pub fn plan_checks(config: &Config) -> (r: Vec<CheckKind>)
    ensures
        r@ == planned(*config),
        r@.contains(CheckKind::Fmt) == config.run_fmt,
        r@.contains(CheckKind::Clippy) == config.run_clippy,
        r@.contains(CheckKind::Test) == config.run_test,
        r@.contains(CheckKind::Build) == config.run_build,
        r@.no_duplicates(),
{
    proof {
        lemma_planned_enabled(*config);
    }
    let mut r: Vec<CheckKind> = Vec::new();
    if config.run_fmt {
        r.push(CheckKind::Fmt);
    }
    if config.run_clippy {
        r.push(CheckKind::Clippy);
    }
    if config.run_test {
        r.push(CheckKind::Test);
    }
    if config.run_build {
        r.push(CheckKind::Build);
    }
    assert(r@ =~= planned(*config));
    r
}

// ---------------------------------------------------------------------------
// Custom checks in the plan
// ---------------------------------------------------------------------------

/// A check that a run starts: a built-in one or one of the custom checks
/// of the configuration file.
pub enum PlannedCheck {
    Builtin(CheckKind),
    Custom(CustomChecker),
}

/// A custom check as plain values: its name, program and arguments.
pub open spec fn custom_triple(c: CustomChecker) -> (Seq<char>, Seq<char>, Seq<Seq<char>>) {
    (c.label(), c.program(), c.arguments())
}

/// `p` is the custom check `t`, given as name, program and arguments.
pub open spec fn is_custom(p: PlannedCheck, t: (Seq<char>, Seq<char>, Seq<Seq<char>>)) -> bool {
    match p {
        PlannedCheck::Custom(c) => custom_triple(c) == t,
        PlannedCheck::Builtin(_) => false,
    }
}

/// The enabled entries of a custom check table, in order, as name, program
/// and arguments.
pub open spec fn enabled_customs(s: Seq<(Seq<char>, Seq<char>, bool, Seq<Seq<char>>)>) -> Seq<
    (Seq<char>, Seq<char>, Seq<Seq<char>>),
>
    decreases s.len(),
{
    if s.len() == 0 {
        seq![]
    } else {
        let init = enabled_customs(s.drop_last());
        let e = s.last();
        if e.2 {
            init.push((e.0, e.1, e.3))
        } else {
            init
        }
    }
}

/// The custom checks that a run under `config` starts.
pub open spec fn custom_plan(config: Config) -> Seq<(Seq<char>, Seq<char>, Seq<Seq<char>>)> {
    enabled_customs(customs_view(config.custom_checks@))
}

/// The name of a planned check.
pub open spec fn planned_name(p: PlannedCheck) -> Seq<char> {
    match p {
        PlannedCheck::Builtin(k) => kind_name(k),
        PlannedCheck::Custom(c) => c.label(),
    }
}

/// The command of a planned check under `config`: program, arguments and
/// time limit.
pub open spec fn planned_command(p: PlannedCheck, config: Config) -> (
    Seq<char>,
    Seq<Seq<char>>,
    Option<u64>,
) {
    match p {
        PlannedCheck::Builtin(k) => ("cargo"@, kind_args(k, config), Some(config.timeout)),
        PlannedCheck::Custom(c) => (c.program(), c.arguments(), Some(config.timeout)),
    }
}

/// The errors a planned check reports for a run that succeeded or not and
/// wrote `output`.
pub open spec fn planned_errors(p: PlannedCheck, success: bool, output: Seq<char>) -> Seq<
    Seq<char>,
> {
    match p {
        PlannedCheck::Builtin(k) => kind_errors(k, success, output),
        PlannedCheck::Custom(c) => single_error(success, custom_failure(c.label())),
    }
}

impl PlannedCheck {
    /// The check's name.
    pub fn name(&self) -> (n: &str)
        ensures
            n@ == planned_name(*self),
    {
        match self {
            PlannedCheck::Builtin(k) => k.name(),
            PlannedCheck::Custom(c) => c.name(),
        }
    }

    /// The command that performs the check under `config`.
    pub fn command(&self, config: &Config) -> (c: CommandSpec)
        ensures
            command_view(c) == planned_command(*self, *config),
    {
        match self {
            PlannedCheck::Builtin(k) => k.command(config),
            PlannedCheck::Custom(c) => c.command(config),
        }
    }

    /// The result of the check from its command's success, output and
    /// running time.
    pub fn check_result(&self, success: bool, stdout: &[u8], stderr: &[u8], duration: Duration) -> (r:
        CheckResult)
        ensures
            result_is(
                r,
                planned_name(*self),
                success,
                duration,
                output_text(stdout@, stderr@),
                planned_errors(*self, success, output_text(stdout@, stderr@)),
            ),
    {
        match self {
            PlannedCheck::Builtin(k) => k.check_result(success, stdout, stderr, duration),
            PlannedCheck::Custom(c) => c.check_result(success, stdout, stderr, duration),
        }
    }
}

/// Every check that a run under `config` starts: the enabled built-in
/// checks in the order fmt, clippy, test, build, then the enabled custom
/// checks in the order of the configuration file.
pub fn plan_run(config: &Config) -> (r: Vec<PlannedCheck>)
    ensures
        r@.len() == planned(*config).len() + custom_plan(*config).len(),
        forall|i: int|
            0 <= i < planned(*config).len() ==> r@[i] == PlannedCheck::Builtin(
                #[trigger] planned(*config)[i],
            ),
        forall|j: int|
            0 <= j < custom_plan(*config).len() ==> is_custom(
                r@[planned(*config).len() + j],
                #[trigger] custom_plan(*config)[j],
            ),
{
    let kinds = plan_checks(config);
    let ghost nb = kinds@.len() as int;
    let mut r: Vec<PlannedCheck> = Vec::new();
    let mut i: usize = 0;
    while i < kinds.len()
        invariant
            kinds@ == planned(*config),
            nb == kinds@.len(),
            i <= kinds@.len(),
            r@.len() == i,
            forall|k: int| 0 <= k < i ==> r@[k] == PlannedCheck::Builtin(#[trigger] kinds@[k]),
        decreases kinds@.len() - i,
    {
        r.push(PlannedCheck::Builtin(kinds[i]));
        i = i + 1;
    }
    let entries = &config.custom_checks;
    let mut j: usize = 0;
    while j < entries.len()
        invariant
            kinds@ == planned(*config),
            nb == kinds@.len(),
            entries == &config.custom_checks,
            j <= entries@.len(),
            r@.len() == nb + enabled_customs(customs_view(entries@.take(j as int))).len(),
            forall|k: int| 0 <= k < nb ==> r@[k] == PlannedCheck::Builtin(#[trigger] kinds@[k]),
            forall|m: int|
                0 <= m < enabled_customs(customs_view(entries@.take(j as int))).len() ==> is_custom(
                    r@[nb + m],
                    #[trigger] enabled_customs(customs_view(entries@.take(j as int)))[m],
                ),
        decreases entries@.len() - j,
    {
        let ghost before = customs_view(entries@.take(j as int));
        let ghost after = customs_view(entries@.take(j + 1));
        assert(after.drop_last() =~= before);
        assert(after.last() == custom_entry(entries@[j as int]));
        let ghost old_r = r@;
        if entries[j].1.enabled {
            let c = CustomChecker::new(owned(entries[j].0.as_str()), copy_custom_config(&entries[j].1));
            r.push(PlannedCheck::Custom(c));
        }
        proof {
            let eb = enabled_customs(before);
            let ea = enabled_customs(after);
            assert forall|m: int| 0 <= m < ea.len() implies is_custom(r@[nb + m], #[trigger] ea[m]) by {
                if m < eb.len() {
                    assert(ea[m] == eb[m]);
                    assert(r@[nb + m] == old_r[nb + m]);
                }
            }
            assert forall|k: int| 0 <= k < nb implies r@[k] == PlannedCheck::Builtin(
                #[trigger] kinds@[k],
            ) by {
                assert(r@[k] == old_r[k]);
            }
        }
        j = j + 1;
    }
    proof {
        assert(entries@.take(entries@.len() as int) =~= entries@);
        let cp = custom_plan(*config);
        assert(cp == enabled_customs(customs_view(entries@.take(j as int))));
        assert forall|m: int| 0 <= m < cp.len() implies is_custom(
            r@[planned(*config).len() + m],
            #[trigger] cp[m],
        ) by {
            assert(cp[m] == enabled_customs(customs_view(entries@.take(j as int)))[m]);
        }
    }
    r
}

/// The place of a built-in check in the order fmt, clippy, test, build.
pub open spec fn kind_rank(k: CheckKind) -> int {
    match k {
        CheckKind::Fmt => 0,
        CheckKind::Clippy => 1,
        CheckKind::Test => 2,
        CheckKind::Build => 3,
    }
}

/// The checks `x` come in strictly increasing order, all before `bound`.
pub open spec fn increasing_below(x: Seq<CheckKind>, bound: int) -> bool {
    &&& forall|i: int, j: int| 0 <= i < j < x.len() ==> kind_rank(#[trigger] x[i]) < kind_rank(#[trigger] x[j])
    &&& forall|i: int| 0 <= i < x.len() ==> kind_rank(#[trigger] x[i]) < bound
}

proof fn lemma_push_increasing(x: Seq<CheckKind>, k: CheckKind, bound: int)
    requires
        increasing_below(x, bound),
        bound <= kind_rank(k),
    ensures
        increasing_below(x.push(k), kind_rank(k) + 1),
{
    let y = x.push(k);
    assert forall|i: int| 0 <= i < x.len() implies y[i] == x[i] by {}
    assert(y[x.len() as int] == k);
}

/// The built-in checks of a run come in the order fmt, clippy, test, build,
/// each at most once.
pub proof fn lemma_planned_in_order(config: Config)
    ensures
        increasing_below(planned(config), 4),
{
    let a = if config.run_fmt {
        seq![CheckKind::Fmt]
    } else {
        seq![]
    };
    if config.run_fmt {
        lemma_push_increasing(seq![], CheckKind::Fmt, 0);
        assert(seq![].push(CheckKind::Fmt) =~= a);
    }
    assert(increasing_below(a, 1));
    let b = if config.run_clippy {
        a.push(CheckKind::Clippy)
    } else {
        a
    };
    if config.run_clippy {
        lemma_push_increasing(a, CheckKind::Clippy, 1);
    }
    assert(increasing_below(b, 2));
    let c = if config.run_test {
        b.push(CheckKind::Test)
    } else {
        b
    };
    if config.run_test {
        lemma_push_increasing(b, CheckKind::Test, 2);
    }
    assert(increasing_below(c, 3));
    if config.run_build {
        lemma_push_increasing(c, CheckKind::Build, 3);
    }
}

/// Each built-in check is planned exactly when the configuration enables
/// it, and none twice.
pub proof fn lemma_planned_enabled(config: Config)
    ensures
        planned(config).contains(CheckKind::Fmt) == config.run_fmt,
        planned(config).contains(CheckKind::Clippy) == config.run_clippy,
        planned(config).contains(CheckKind::Test) == config.run_test,
        planned(config).contains(CheckKind::Build) == config.run_build,
        planned(config).no_duplicates(),
{
    let p = planned(config);
    lemma_planned_in_order(config);
    assert forall|k: CheckKind| p.contains(k) == (match k {
        CheckKind::Fmt => config.run_fmt,
        CheckKind::Clippy => config.run_clippy,
        CheckKind::Test => config.run_test,
        CheckKind::Build => config.run_build,
    }) by {
        let a = if config.run_fmt {
            seq![CheckKind::Fmt]
        } else {
            seq![]
        };
        let b = if config.run_clippy {
            a.push(CheckKind::Clippy)
        } else {
            a
        };
        let c = if config.run_test {
            b.push(CheckKind::Test)
        } else {
            b
        };
        assert(p == (if config.run_build {
            c.push(CheckKind::Build)
        } else {
            c
        }));
        if a.contains(k) {
            let i = choose|i: int| 0 <= i < a.len() && a[i] == k;
            assert(a[i] == CheckKind::Fmt);
        }
        if config.run_fmt {
            assert(a[0] == CheckKind::Fmt);
        }
        assert(b.contains(k) == (a.contains(k) || (config.run_clippy && k == CheckKind::Clippy))) by {
            if config.run_clippy {
                if b.contains(k) {
                    let i = choose|i: int| 0 <= i < b.len() && b[i] == k;
                    if i < a.len() {
                        assert(a[i] == b[i]);
                    }
                }
                if a.contains(k) {
                    let i = choose|i: int| 0 <= i < a.len() && a[i] == k;
                    assert(b[i] == a[i]);
                }
                assert(b[a.len() as int] == CheckKind::Clippy);
            }
        }
        assert(c.contains(k) == (b.contains(k) || (config.run_test && k == CheckKind::Test))) by {
            if config.run_test {
                if c.contains(k) {
                    let i = choose|i: int| 0 <= i < c.len() && c[i] == k;
                    if i < b.len() {
                        assert(b[i] == c[i]);
                    }
                }
                if b.contains(k) {
                    let i = choose|i: int| 0 <= i < b.len() && b[i] == k;
                    assert(c[i] == b[i]);
                }
                assert(c[b.len() as int] == CheckKind::Test);
            }
        }
        assert(p.contains(k) == (c.contains(k) || (config.run_build && k == CheckKind::Build))) by {
            if config.run_build {
                if p.contains(k) {
                    let i = choose|i: int| 0 <= i < p.len() && p[i] == k;
                    if i < c.len() {
                        assert(c[i] == p[i]);
                    }
                }
                if c.contains(k) {
                    let i = choose|i: int| 0 <= i < c.len() && c[i] == k;
                    assert(p[i] == c[i]);
                }
                assert(p[c.len() as int] == CheckKind::Build);
            }
        }
    }
    assert forall|i: int, j: int| 0 <= i < p.len() && 0 <= j < p.len() && i != j implies p[i] != p[j] by {
        if i < j {
            assert(kind_rank(p[i]) < kind_rank(p[j]));
        } else {
            assert(kind_rank(p[j]) < kind_rank(p[i]));
        }
    }
    assert(p.contains(CheckKind::Fmt) == config.run_fmt);
    assert(p.contains(CheckKind::Clippy) == config.run_clippy);
    assert(p.contains(CheckKind::Test) == config.run_test);
    assert(p.contains(CheckKind::Build) == config.run_build);
}

/// The names of the custom checks that a run under `config` starts, in
/// order.
pub open spec fn custom_names(config: Config) -> Seq<Seq<char>> {
    custom_plan(config).map_values(|t: (Seq<char>, Seq<char>, Seq<Seq<char>>)| t.0)
}

/// The names of the checks that a run under `config` starts, in the order
/// of `plan_run`.
pub open spec fn plan_names(config: Config) -> Seq<Seq<char>> {
    planned(config).map_values(|k: CheckKind| kind_name(k)) + custom_names(config)
}

/// `n` names a built-in check.
pub open spec fn builtin_name(n: Seq<char>) -> bool {
    n == "fmt"@ || n == "clippy"@ || n == "test"@ || n == "build"@
}

/// Some enabled entry of the custom check table `s` is named `n`.
pub open spec fn enabled_named(s: Seq<(Seq<char>, Seq<char>, bool, Seq<Seq<char>>)>, n: Seq<char>) -> bool {
    exists|k: int| 0 <= k < s.len() && (#[trigger] s[k]).2 && s[k].0 == n
}

/// The names of the triples `e`.
pub open spec fn triple_names(e: Seq<(Seq<char>, Seq<char>, Seq<Seq<char>>)>) -> Seq<Seq<char>> {
    e.map_values(|t: (Seq<char>, Seq<char>, Seq<Seq<char>>)| t.0)
}

proof fn lemma_enabled_names(s: Seq<(Seq<char>, Seq<char>, bool, Seq<Seq<char>>)>)
    ensures
        forall|n: Seq<char>| triple_names(enabled_customs(s)).contains(n) <==> enabled_named(s, n),
    decreases s.len(),
{
    if s.len() > 0 {
        let init = s.drop_last();
        let last = s.last();
        lemma_enabled_names(init);
        let t0 = triple_names(enabled_customs(init));
        let t = triple_names(enabled_customs(s));
        assert(s[s.len() - 1] == last);
        if last.2 {
            assert(t =~= t0.push(last.0));
        } else {
            assert(t =~= t0);
        }
        assert forall|n: Seq<char>| t.contains(n) <==> enabled_named(s, n) by {
            assert(t0.contains(n) <==> enabled_named(init, n));
            if enabled_named(s, n) {
                let k = choose|k: int| 0 <= k < s.len() && (#[trigger] s[k]).2 && s[k].0 == n;
                if k < init.len() {
                    assert(init[k] == s[k]);
                    assert(enabled_named(init, n));
                    let i = choose|i: int| 0 <= i < t0.len() && t0[i] == n;
                    assert(t[i] == t0[i]);
                } else {
                    assert(t[t.len() - 1] == n);
                }
            }
            if t.contains(n) {
                let i = choose|i: int| 0 <= i < t.len() && t[i] == n;
                if i < t0.len() {
                    assert(t0[i] == t[i]);
                    assert(t0.contains(n));
                    let k = choose|k: int| 0 <= k < init.len() && (#[trigger] init[k]).2 && init[k].0 == n;
                    assert(s[k] == init[k]);
                } else {
                    assert(last.2 && last.0 == n);
                    assert(s[s.len() - 1].2 && s[s.len() - 1].0 == n);
                }
            }
        }
    }
}

proof fn lemma_enabled_distinct(s: Seq<(Seq<char>, Seq<char>, bool, Seq<Seq<char>>)>)
    requires
        distinct_names(s),
    ensures
        triple_names(enabled_customs(s)).no_duplicates(),
    decreases s.len(),
{
    if s.len() > 0 {
        let init = s.drop_last();
        let last = s.last();
        assert forall|i: int, j: int| 0 <= i < j < init.len() implies (#[trigger] init[i]).0 != (
        #[trigger] init[j]).0 by {
            assert(init[i] == s[i] && init[j] == s[j]);
        }
        lemma_enabled_distinct(init);
        lemma_enabled_names(init);
        let t0 = triple_names(enabled_customs(init));
        let t = triple_names(enabled_customs(s));
        if last.2 {
            assert(t =~= t0.push(last.0));
            if t0.contains(last.0) {
                assert(enabled_named(init, last.0));
                let k = choose|k: int| 0 <= k < init.len() && (#[trigger] init[k]).2 && init[k].0 == last.0;
                assert(s[k] == init[k]);
                assert(s[s.len() - 1] == last);
            }
            assert forall|i: int, j: int| 0 <= i < t.len() && 0 <= j < t.len() && i != j implies t[i]
                != t[j] by {
                if i < t0.len() && j < t0.len() {
                    assert(t[i] == t0[i] && t[j] == t0[j]);
                } else if i < t0.len() {
                    assert(t[i] == t0[i]);
                } else if j < t0.len() {
                    assert(t[j] == t0[j]);
                }
            }
        } else {
            assert(t =~= t0);
        }
    }
}

/// The custom checks that a run starts are exactly the enabled ones of the
/// configuration, by name.  When no two custom checks share a name and
/// none is named like a built-in check, no two started checks share a
/// name, so each has exactly one result.
pub proof fn lemma_custom_checks_run_once(config: Config)
    ensures
        forall|n: Seq<char>|
            custom_names(config).contains(n) <==> enabled_named(
                customs_view(config.custom_checks@),
                n,
            ),
        distinct_names(customs_view(config.custom_checks@)) && (forall|k: int|
            0 <= k < config.custom_checks@.len() ==> !builtin_name(
                #[trigger] config.custom_checks@[k].0@,
            )) ==> plan_names(config).no_duplicates(),
{
    let cv = customs_view(config.custom_checks@);
    lemma_enabled_names(cv);
    assert(custom_names(config) =~= triple_names(enabled_customs(cv)));
    if distinct_names(cv) && (forall|k: int|
        0 <= k < config.custom_checks@.len() ==> !builtin_name(
            #[trigger] config.custom_checks@[k].0@,
        )) {
        lemma_enabled_distinct(cv);
        let p = planned(config).map_values(|k: CheckKind| kind_name(k));
        let c = custom_names(config);
        let names = plan_names(config);
        assert forall|i: int, j: int| 0 <= i < names.len() && 0 <= j < names.len() && i != j implies names[i]
            != names[j] by {
            if i < p.len() && j < p.len() {
                lemma_planned_in_order(config);
                let ki = planned(config)[i];
                let kj = planned(config)[j];
                assert(kind_rank(ki) != kind_rank(kj));
                assert(names[i] == kind_name(ki) && names[j] == kind_name(kj));
                reveal_strlit("fmt");
                reveal_strlit("clippy");
                reveal_strlit("test");
                reveal_strlit("build");
            } else if i >= p.len() && j >= p.len() {
                assert(names[i] == c[i - p.len()] && names[j] == c[j - p.len()]);
            } else {
                let (a, b) = if i < p.len() { (i, j) } else { (j, i) };
                assert(names[b] == c[b - p.len()]);
                assert(c.contains(names[b]));
                assert(enabled_named(cv, names[b]));
                let k = choose|k: int| 0 <= k < cv.len() && (#[trigger] cv[k]).2 && cv[k].0 == names[b];
                assert(cv[k] == custom_entry(config.custom_checks@[k]));
                assert(!builtin_name(config.custom_checks@[k].0@));
                assert(builtin_name(names[a]));
            }
        }
    }
}

// ---------------------------------------------------------------------------
// Ordering results by name
// ---------------------------------------------------------------------------

/// `a` comes before `b` or equals it in the order of `String::cmp`:
/// character by character by code point (for UTF-8 text the same as byte
/// by byte), a proper prefix first.
pub open spec fn text_le(a: Seq<char>, b: Seq<char>) -> bool
    decreases a.len(),
{
    if a.len() == 0 {
        true
    } else if b.len() == 0 {
        false
    } else if a[0] != b[0] {
        (a[0] as int) < (b[0] as int)
    } else {
        text_le(a.drop_first(), b.drop_first())
    }
}

/// Of any two texts one comes before the other or they are equal.
pub proof fn lemma_text_le_total(a: Seq<char>, b: Seq<char>)
    ensures
        text_le(a, b) || text_le(b, a),
    decreases a.len(),
{
    if a.len() > 0 && b.len() > 0 {
        if a[0] == b[0] {
            lemma_text_le_total(a.drop_first(), b.drop_first());
        } else {
            assert((a[0] as int) != (b[0] as int));
        }
    }
}

/// The order of texts is transitive.
pub proof fn lemma_text_le_transitive(a: Seq<char>, b: Seq<char>, c: Seq<char>)
    requires
        text_le(a, b),
        text_le(b, c),
    ensures
        text_le(a, c),
    decreases a.len(),
{
    if a.len() > 0 && b.len() > 0 && c.len() > 0 && a[0] == b[0] && b[0] == c[0] {
        lemma_text_le_transitive(a.drop_first(), b.drop_first(), c.drop_first());
    }
}

proof fn lemma_text_le_skip(a: Seq<char>, b: Seq<char>, i: int)
    requires
        0 <= i <= a.len(),
        i <= b.len(),
        a.take(i) == b.take(i),
    ensures
        text_le(a, b) == text_le(a.skip(i), b.skip(i)),
    decreases i,
{
    if i > 0 {
        assert(a[0] == a.take(i)[0]);
        assert(b[0] == b.take(i)[0]);
        assert(a.drop_first().take(i - 1) =~= a.take(i).drop_first());
        assert(b.drop_first().take(i - 1) =~= b.take(i).drop_first());
        lemma_text_le_skip(a.drop_first(), b.drop_first(), i - 1);
        assert(a.drop_first().skip(i - 1) =~= a.skip(i));
        assert(b.drop_first().skip(i - 1) =~= b.skip(i));
    } else {
        assert(a.skip(0) =~= a);
        assert(b.skip(0) =~= b);
    }
}

/// Whether `a` comes before `b` or equals it.
pub fn name_le(a: &str, b: &str) -> (r: bool)
    ensures
        r == text_le(a@, b@),
{
    let x = chars_of(a);
    let y = chars_of(b);
    let mut i: usize = 0;
    while i < x.len() && i < y.len() && x[i] == y[i]
        invariant
            x@ == a@,
            y@ == b@,
            i <= x@.len(),
            i <= y@.len(),
            x@.take(i as int) == y@.take(i as int),
        decreases x@.len() - i,
    {
        assert(x@.take(i + 1) =~= x@.take(i as int).push(x@[i as int]));
        assert(y@.take(i + 1) =~= y@.take(i as int).push(y@[i as int]));
        i = i + 1;
    }
    proof {
        lemma_text_le_skip(x@, y@, i as int);
    }
    if i == x.len() {
        true
    } else if i == y.len() {
        false
    } else {
        proof {
            assert(x@.skip(i as int)[0] == x@[i as int]);
            assert(y@.skip(i as int)[0] == y@[i as int]);
        }
        x[i] < y[i]
    }
}

/// The names of `v` are in order.
pub open spec fn sorted_by_name(v: Seq<CheckResult>) -> bool {
    forall|i: int, j: int| 0 <= i < j < v.len() ==> text_le(#[trigger] v[i].name@, #[trigger] v[j].name@)
}

/// Whether a result has the name `n`.
pub open spec fn name_is(n: Seq<char>) -> spec_fn(CheckResult) -> bool {
    |c: CheckResult| c.name@ == n
}

/// The results of `v` named `n`, in order.
pub open spec fn with_name(v: Seq<CheckResult>, n: Seq<char>) -> Seq<CheckResult> {
    v.filter(name_is(n))
}

proof fn lemma_filter_none(s: Seq<CheckResult>, p: spec_fn(CheckResult) -> bool)
    requires
        forall|i: int| 0 <= i < s.len() ==> !p(#[trigger] s[i]),
    ensures
        s.filter(p) == Seq::<CheckResult>::empty(),
    decreases s.len(),
{
    reveal(Seq::filter);
    if s.len() > 0 {
        let init = s.drop_last();
        assert forall|i: int| 0 <= i < init.len() implies !p(#[trigger] init[i]) by {
            assert(init[i] == s[i]);
        }
        lemma_filter_none(init, p);
        assert(!p(s[s.len() - 1]));
    }
}

proof fn lemma_filter_push(s: Seq<CheckResult>, p: spec_fn(CheckResult) -> bool, x: CheckResult)
    ensures
        s.push(x).filter(p) == (if p(x) {
            s.filter(p).push(x)
        } else {
            s.filter(p)
        }),
{
    reveal(Seq::filter);
    assert(s.push(x).drop_last() =~= s);
}

/// `v` ordered by name; results with equal names keep their order.
pub fn sort_by_name(v: Vec<CheckResult>) -> (r: Vec<CheckResult>)
    ensures
        sorted_by_name(r@),
        r@.to_multiset() == v@.to_multiset(),
        forall|n: Seq<char>| #[trigger] with_name(r@, n) == with_name(v@, n),
{
    let ghost input = v@;
    let mut v = v;
    let mut r: Vec<CheckResult> = Vec::new();
    let mut i: usize = 0;
    let n = v.len();
    assert(input.take(0) =~= Seq::<CheckResult>::empty());
    while v.len() > 0
        invariant
            n == input.len(),
            i + v@.len() == n,
            v@ == input.skip(i as int),
            sorted_by_name(r@),
            r@.to_multiset() == input.take(i as int).to_multiset(),
            forall|n: Seq<char>| #[trigger] with_name(r@, n) == with_name(input.take(i as int), n),
        decreases v@.len(),
    {
        let x = v.remove(0);
        assert(x == input[i as int]);
        let mut p: usize = 0;
        while p < r.len() && name_le(r[p].name.as_str(), x.name.as_str())
            invariant
                p <= r@.len(),
                sorted_by_name(r@),
                forall|k: int| 0 <= k < p ==> text_le(#[trigger] r@[k].name@, x.name@),
            decreases r@.len() - p,
        {
            p = p + 1;
        }
        let ghost old_r = r@;
        proof {
            assert forall|k: int| p <= k < old_r.len() implies text_le(
                x.name@,
                #[trigger] old_r[k].name@,
            ) && !text_le(old_r[k].name@, x.name@) by {
                assert(!text_le(old_r[p as int].name@, x.name@));
                if text_le(old_r[k].name@, x.name@) {
                    lemma_text_le_transitive(old_r[p as int].name@, old_r[k].name@, x.name@);
                }
                lemma_text_le_total(x.name@, old_r[k].name@);
            }
        }
        r.insert(p, x);
        proof {
            let s = r@;
            assert(s == old_r.insert(p as int, x));
            assert forall|a: int, b: int| 0 <= a < b < s.len() implies text_le(
                #[trigger] s[a].name@,
                #[trigger] s[b].name@,
            ) by {
                if b < p {
                    assert(s[a] == old_r[a] && s[b] == old_r[b]);
                } else if b == p {
                    assert(s[a] == old_r[a]);
                } else if a < p {
                    assert(s[a] == old_r[a] && s[b] == old_r[b - 1]);
                    lemma_text_le_transitive(old_r[a].name@, x.name@, old_r[b - 1].name@);
                } else if a == p {
                    assert(s[b] == old_r[b - 1]);
                } else {
                    assert(s[a] == old_r[a - 1] && s[b] == old_r[b - 1]);
                }
            }
            vstd::seq_lib::to_multiset_insert(old_r, p as int, x);
            assert(input.take(i + 1) =~= input.take(i as int).push(x));
            assert forall|n: Seq<char>| #[trigger] with_name(s, n) == with_name(
                input.take(i + 1),
                n,
            ) by {
                let pr = name_is(n);
                let front = old_r.take(p as int);
                let back = old_r.skip(p as int);
                assert(old_r =~= front + back);
                assert(s =~= (front + seq![x]) + back);
                Seq::filter_distributes_over_add(front, back, pr);
                Seq::filter_distributes_over_add(front + seq![x], back, pr);
                Seq::filter_distributes_over_add(front, seq![x], pr);
                lemma_filter_push(Seq::<CheckResult>::empty(), pr, x);
                assert(Seq::<CheckResult>::empty().push(x) =~= seq![x]);
                lemma_filter_none(Seq::<CheckResult>::empty(), pr);
                lemma_filter_push(input.take(i as int), pr, x);
                assert(with_name(old_r, n) == with_name(input.take(i as int), n));
                if pr(x) {
                    assert forall|k: int| 0 <= k < back.len() implies !pr(#[trigger] back[k]) by {
                        assert(back[k] == old_r[p + k]);
                    }
                    lemma_filter_none(back, pr);
                    assert(seq![x].filter(pr) =~= seq![x]);
                    assert(back.filter(pr) + Seq::<CheckResult>::empty() =~= back.filter(pr));
                    assert(front.filter(pr) + Seq::<CheckResult>::empty() =~= front.filter(pr));
                    assert(with_name(s, n) =~= with_name(old_r, n).push(x));
                } else {
                    assert(seq![x].filter(pr) =~= Seq::<CheckResult>::empty());
                    assert(front.filter(pr) + Seq::<CheckResult>::empty() =~= front.filter(pr));
                    assert(with_name(s, n) =~= with_name(old_r, n));
                }
            }
            assert(v@ =~= input.skip(i + 1));
        }
        i = i + 1;
    }
    assert(input.take(n as int) =~= input);
    r
}

// ---------------------------------------------------------------------------
// Gathering the results
// ---------------------------------------------------------------------------

/// Every outcome is a result.
pub open spec fn all_ok(os: Seq<Result<CheckResult, DevCheckError>>) -> bool {
    forall|i: int| 0 <= i < os.len() ==> #[trigger] os[i] is Ok
}

/// The results of outcomes that are all results.
pub open spec fn ok_values(os: Seq<Result<CheckResult, DevCheckError>>) -> Seq<CheckResult> {
    os.map_values(|o: Result<CheckResult, DevCheckError>| o->Ok_0)
}

/// The results of the checks, ordered by name, from their outcomes in the
/// order the checks finished; results with equal names keep that order.
/// The first failure to run a check ends the run with its error.
pub fn collect_results(outcomes: Vec<Result<CheckResult, DevCheckError>>) -> (r: Result<
    Vec<CheckResult>,
    DevCheckError,
>)
    ensures
        r is Ok <==> all_ok(outcomes@),
        r matches Ok(v) ==> sorted_by_name(v@) && v@.to_multiset() == ok_values(
            outcomes@,
        ).to_multiset() && forall|n: Seq<char>| #[trigger] with_name(v@, n) == with_name(
            ok_values(outcomes@),
            n,
        ),
        r matches Err(e) ==> exists|k: int|
            0 <= k < outcomes@.len() && #[trigger] outcomes@[k] == Err::<CheckResult, DevCheckError>(e)
                && forall|j: int| 0 <= j < k ==> outcomes@[j] is Ok,
{
    let ghost input = outcomes@;
    let total = outcomes.len();
    let mut rest = outcomes;
    let mut done: Vec<CheckResult> = Vec::new();
    let mut i: usize = 0;
    while rest.len() > 0
        invariant
            input == outcomes@,
            total == input.len(),
            i + rest@.len() == input.len(),
            rest@ == input.skip(i as int),
            forall|j: int| 0 <= j < i ==> #[trigger] input[j] is Ok,
            done@ == ok_values(input.take(i as int)),
        decreases rest@.len(),
    {
        let o = rest.remove(0);
        assert(o == input[i as int]);
        match o {
            Ok(c) => {
                done.push(c);
                assert(ok_values(input.take(i + 1)) =~= ok_values(input.take(i as int)).push(c));
            },
            Err(e) => {
                proof {
                    assert(input[i as int] == Err::<CheckResult, DevCheckError>(e));
                    assert(!all_ok(input));
                }
                return Err(e);
            },
        }
        assert(rest@ =~= input.skip(i + 1));
        i = i + 1;
    }
    assert(input.take(i as int) =~= input);
    Ok(sort_by_name(done))
}

// ---------------------------------------------------------------------------
// Laws of the checks
// ---------------------------------------------------------------------------

/// A check reports errors exactly when it fails: none when its command
/// succeeded, at least one when it did not.
pub proof fn lemma_errors_exactly_on_failure(k: CheckKind, success: bool, output: Seq<char>)
    ensures
        success ==> kind_errors(k, success, output).len() == 0,
        !success ==> kind_errors(k, success, output).len() > 0,
{
}

/// The lint check reports at most five error lines, the test check at most
/// ten.
pub proof fn lemma_error_lines_bounded(success: bool, output: Seq<char>)
    ensures
        kind_errors(CheckKind::Clippy, success, output).len() <= 5,
        kind_errors(CheckKind::Test, success, output).len() <= 10,
{
}

} // verus!
