//! Best-effort profiling of the host side.
//!
//! A profiler is there only where a caller supplied a path. Each measurement and each marker
//! becomes one row of tab-separated values, `<label>\t<duration_nanos>`, to be appended to the
//! file at that path. Whether the row gets there has no bearing on what was measured.

use std::path::PathBuf;
use std::time::Instant;
use vstd::prelude::*;
use vstd::string::StringExecFns;

verus! {

/// `std::path::PathBuf`, of which nothing is known here but that it is carried along.
#[verifier::external_type_specification]
#[verifier::external_body]
pub struct ExPathBuf(PathBuf);

/// `<PathBuf as Clone>::clone`. What is claimed is that the clone is the same path.
pub assume_specification[ <PathBuf as Clone>::clone ](path: &PathBuf) -> (r: PathBuf)
    ensures
        r == *path,
;

/// `std::time::Instant`, of which nothing is known here.
#[verifier::external_type_specification]
#[verifier::external_body]
pub struct ExInstant(Instant);

/// `Instant::now`. Nothing is claimed of the time that it gives. The work that is still to be
/// done stands by: a closure that can be called once can be lent only before it is called, so an
/// instant that was taken with it was taken before it ran.
#[verifier::external_body]
fn now<F>(_to_be_done: &F) -> Instant {
    Instant::now()
}

/// `Instant::elapsed`, in nanoseconds. Nothing is claimed of the time that has passed. What the
/// work returned stands by: it can be lent only after the work is done, so a time that was read
/// with it was read after that.
#[verifier::external_body]
fn elapsed_nanos<T>(started_at: Instant, _done: &T) -> u128 {
    started_at.elapsed().as_nanos()
}

/// The decimal digit `d`.
pub open spec fn digit(d: nat) -> char {
    (('0' as nat) + d) as char
}

/// `n` in decimal, without leading zeros.
pub open spec fn decimal(n: nat) -> Seq<char>
    decreases n,
{
    if n < 10 {
        seq![digit(n)]
    } else {
        decimal(n / 10).push(digit(n % 10))
    }
}

/// The row of a label and a duration.
pub open spec fn row(label: Seq<char>, nanos: nat) -> Seq<char> {
    label + seq!['\t'] + decimal(nanos) + seq!['\n']
}

/// Whether `at` is an instant that the clock gave while `f` was still to be called.
pub closed spec fn taken_before<F>(f: F, at: Instant) -> bool {
    call_ensures(now::<F>, (&f,), at)
}

/// Whether the clock told `nanos` for the time since `at` when `result` was there.
pub closed spec fn read_after<T>(result: T, at: Instant, nanos: u128) -> bool {
    call_ensures(elapsed_nanos::<T>, (at, &result), nanos)
}

/// Whether `nanos` is what the clock told for the run of `f` that gave `result`: the time since
/// an instant before `f` was called, read after it returned.
pub open spec fn clocked<F, T>(f: F, result: T, nanos: u128) -> bool {
    exists|at: Instant| taken_before(f, at) && #[trigger] read_after(result, at, nanos)
}

/// Whether `text` is a row of `label`, with what the clock told for the run of `f` that gave
/// `result`.
pub open spec fn is_row_of<F, T>(text: Seq<char>, label: Seq<char>, f: F, result: T) -> bool {
    exists|nanos: u128| clocked(f, result, nanos) && text == #[trigger] row(label, nanos as nat)
}

/// Whether `r` can come of measuring `f` under `label`: what `f` returned, and a row of the
/// label with what the clock told for that run. How long that is, is left open.
pub open spec fn measures<T, F: FnOnce() -> T>(label: Seq<char>, f: F, r: (T, String)) -> bool {
    f.ensures((), r.0) && is_row_of(r.1@, label, f, r.0)
}

/// The digit `d` as a string.
fn digit_str(d: u8) -> (r: &'static str)
    requires
        d < 10,
    ensures
        r@ == seq![digit(d as nat)],
{
    proof {
        reveal_strlit("0");
        reveal_strlit("1");
        reveal_strlit("2");
        reveal_strlit("3");
        reveal_strlit("4");
        reveal_strlit("5");
        reveal_strlit("6");
        reveal_strlit("7");
        reveal_strlit("8");
        reveal_strlit("9");
    }
    let r = match d {
        0 => "0",
        1 => "1",
        2 => "2",
        3 => "3",
        4 => "4",
        5 => "5",
        6 => "6",
        7 => "7",
        8 => "8",
        _ => "9",
    };
    assert(r@ =~= seq![digit(d as nat)]);
    r
}

/// Appends `n` in decimal to `out`.
fn append_decimal(out: &mut String, n: u128)
    ensures
        final(out)@ == old(out)@ + decimal(n as nat),
    decreases n,
{
    if n >= 10 {
        append_decimal(out, n / 10);
    }
    out.append(digit_str((n % 10) as u8));
    proof {
        if n >= 10 {
            assert(out@ =~= old(out)@ + decimal(n as nat));
        }
    }
}

/// A profiler that writes to the file at a path.
#[derive(Debug)]
pub struct KrunProfiler {
    path: PathBuf,
}

impl Clone for KrunProfiler {
    /// A profiler for the same path.
    fn clone(&self) -> (r: KrunProfiler)
        ensures
            r.path() == self.path(),
    {
        KrunProfiler { path: self.path.clone() }
    }
}

impl KrunProfiler {
    /// Where the rows go.
    pub closed spec fn path(self) -> PathBuf {
        self.path
    }

    /// A profiler for `path`; none where there is no path.
    pub fn start(path: Option<PathBuf>) -> (r: Option<KrunProfiler>)
        ensures
            r is Some <==> path is Some,
            r matches Some(profiler) ==> path == Some(profiler.path()),
    {
        match path {
            Some(path) => Some(KrunProfiler { path }),
            None => None,
        }
    }

    /// Where the rows go.
    pub fn get_path(&self) -> (r: &PathBuf)
        ensures
            *r == self.path(),
    {
        &self.path
    }

    /// Runs `f` and gives what it returned, with the row that tells how long it took.
    pub fn measure<T>(&self, label: &'static str, f: impl FnOnce() -> T) -> (r: (T, String))
        requires
            f.requires(()),
        ensures
            measures(label@, f, r),
    {
        let started_at = now(&f);
        let result = f();
        let nanos: u128 = elapsed_nanos(started_at, &result);
        assert(taken_before(f, started_at) && read_after(result, started_at, nanos));
        (result, self.record(label, nanos))
    }

    /// The row of a marker, which takes no time.
    pub fn record_marker(&self, label: &'static str) -> (r: String)
        ensures
            r@ == row(label@, 0),
    {
        self.record(label, 0)
    }

    /// The row of a label and a duration.
    pub fn record(&self, label: &'static str, nanos: u128) -> (r: String)
        ensures
            r@ == row(label@, nanos as nat),
    {
        let mut out: String = String::new();
        out.append(label);
        out.append("\t");
        append_decimal(&mut out, nanos);
        out.append("\n");
        proof {
            reveal_strlit("\t");
            reveal_strlit("\n");
            assert("\t"@ =~= seq!['\t']);
            assert("\n"@ =~= seq!['\n']);
            assert(out@ =~= row(label@, nanos as nat));
        }
        out
    }
}

/// The number that a row of digits stands for.
pub open spec fn decimal_value(digits: Seq<char>) -> int
    decreases digits.len(),
{
    if digits.len() == 0 {
        0
    } else {
        10 * decimal_value(digits.drop_last()) + (digits.last() as int - '0' as int)
    }
}

/// What `decimal` writes is made of digits and stands for the number that was written.
proof fn lemma_decimal(n: nat)
    ensures
        decimal(n).len() > 0,
        forall|i: int| 0 <= i < decimal(n).len() ==> '0' <= #[trigger] decimal(n)[i] <= '9',
        decimal_value(decimal(n)) == n,
    decreases n,
{
    reveal_with_fuel(decimal_value, 2);
    if n >= 10 {
        lemma_decimal(n / 10);
        assert(decimal(n).drop_last() =~= decimal(n / 10));
    } else {
        assert(decimal(n).drop_last() =~= Seq::empty());
    }
}

/// A row can be read back: where labels hold no tab, two rows are the same only if both label
/// and duration are.
pub proof fn law_rows_tell_apart(label: Seq<char>, nanos: nat, other: Seq<char>, other_nanos: nat)
    requires
        !label.contains('\t'),
        !other.contains('\t'),
        row(label, nanos) == row(other, other_nanos),
    ensures
        label == other,
        nanos == other_nanos,
{
    let a = row(label, nanos);
    let b = row(other, other_nanos);
    lemma_decimal(nanos);
    lemma_decimal(other_nanos);
    assert(a[label.len() as int] == '\t');
    assert(b[other.len() as int] == '\t');
    if label.len() < other.len() {
        assert(other[label.len() as int] == b[label.len() as int]);
        assert(other.contains('\t'));
    }
    if other.len() < label.len() {
        assert(label[other.len() as int] == a[other.len() as int]);
        assert(label.contains('\t'));
    }
    assert(a.take(label.len() as int) =~= label);
    assert(b.take(other.len() as int) =~= other);
    assert(a.subrange(label.len() as int + 1, a.len() - 1) =~= decimal(nanos));
    assert(b.subrange(other.len() as int + 1, b.len() - 1) =~= decimal(other_nanos));
}

/// A row is one line of two columns: where the label holds neither a tab nor a line break, the
/// row has one tab, right behind the label, and one line break, at its end.
pub proof fn law_row_is_one_line_of_two_columns(label: Seq<char>, nanos: nat, i: int)
    requires
        !label.contains('\t'),
        !label.contains('\n'),
        0 <= i < row(label, nanos).len(),
    ensures
        row(label, nanos)[i] == '\t' <==> i == label.len(),
        row(label, nanos)[i] == '\n' <==> i == row(label, nanos).len() - 1,
{
    lemma_decimal(nanos);
    if i < label.len() {
        assert(label[i] == row(label, nanos)[i]);
        assert(label.contains(label[i]));
    } else if label.len() < i < row(label, nanos).len() - 1 {
        assert(row(label, nanos)[i] == decimal(nanos)[i - label.len() - 1]);
    }
}

/// The contents of a file of rows.
pub open spec fn file(records: Seq<(Seq<char>, nat)>) -> Seq<char>
    decreases records.len(),
{
    if records.len() == 0 {
        Seq::empty()
    } else {
        row(records[0].0, records[0].1) + file(records.skip(1))
    }
}

/// Whether a label keeps to its column: it holds neither a tab nor a line break.
pub open spec fn plain_label(label: Seq<char>) -> bool {
    !label.contains('\t') && !label.contains('\n')
}

/// A file of rows can be read back: where labels keep to their column, two files are the same
/// only if they were written from the same records in the same order.
pub proof fn law_files_tell_apart(a: Seq<(Seq<char>, nat)>, b: Seq<(Seq<char>, nat)>)
    requires
        forall|i: int| 0 <= i < a.len() ==> plain_label(#[trigger] a[i].0),
        forall|i: int| 0 <= i < b.len() ==> plain_label(#[trigger] b[i].0),
        file(a) == file(b),
    ensures
        a == b,
    decreases a.len(),
{
    if a.len() > 0 && b.len() > 0 {
        let ra = row(a[0].0, a[0].1);
        let rb = row(b[0].0, b[0].1);
        if ra.len() < rb.len() {
            law_row_is_one_line_of_two_columns(a[0].0, a[0].1, ra.len() - 1);
            law_row_is_one_line_of_two_columns(b[0].0, b[0].1, ra.len() - 1);
            assert(file(a)[ra.len() - 1] == file(b)[ra.len() - 1]);
        }
        if rb.len() < ra.len() {
            law_row_is_one_line_of_two_columns(a[0].0, a[0].1, rb.len() - 1);
            law_row_is_one_line_of_two_columns(b[0].0, b[0].1, rb.len() - 1);
            assert(file(a)[rb.len() - 1] == file(b)[rb.len() - 1]);
        }
        assert(file(a).take(ra.len() as int) =~= ra);
        assert(file(b).take(rb.len() as int) =~= rb);
        law_rows_tell_apart(a[0].0, a[0].1, b[0].0, b[0].1);
        assert(file(a).skip(ra.len() as int) =~= file(a.skip(1)));
        assert(file(b).skip(rb.len() as int) =~= file(b.skip(1)));
        law_files_tell_apart(a.skip(1), b.skip(1));
        assert(a =~= seq![a[0]] + a.skip(1));
        assert(b =~= seq![b[0]] + b.skip(1));
    } else {
        assert(a =~= b);
    }
}

/// The records of two labels and their durations.
pub open spec fn two_records(
    first: Seq<char>,
    first_nanos: u128,
    second: Seq<char>,
    second_nanos: u128,
) -> Seq<(Seq<char>, nat)> {
    seq![(first, first_nanos as nat), (second, second_nanos as nat)]
}

/// Measurements nest: where the closure `f` of one measurement makes another one, of `g`, the
/// result of `g` comes through both, and each gives its row. The two rows, the inner one first,
/// are a file of two records: the inner label, and then the outer one.
pub proof fn law_measurements_nest<T, G: FnOnce() -> T, F: FnOnce() -> (T, String)>(
    inner: Seq<char>,
    g: G,
    outer: Seq<char>,
    f: F,
    r: ((T, String), String),
)
    requires
        forall|x: (T, String)| #[trigger] f.ensures((), x) ==> measures(inner, g, x),
        measures(outer, f, r),
    ensures
        g.ensures((), r.0.0),
        is_row_of(r.0.1@, inner, g, r.0.0),
        is_row_of(r.1@, outer, f, r.0),
        exists|n1: u128, n2: u128|
            clocked(g, r.0.0, n1) && clocked(f, r.0, n2) && r.0.1@ + r.1@ == #[trigger] file(
                two_records(inner, n1, outer, n2),
            ),
{
    let n1 = choose|nanos: u128|
        clocked(g, r.0.0, nanos) && r.0.1@ == #[trigger] row(inner, nanos as nat);
    let n2 = choose|nanos: u128|
        clocked(f, r.0, nanos) && r.1@ == #[trigger] row(outer, nanos as nat);
    lemma_two_rows(inner, n1, outer, n2);
    assert(r.0.1@ + r.1@ == file(two_records(inner, n1, outer, n2)));
}

proof fn lemma_two_rows(first: Seq<char>, n1: u128, second: Seq<char>, n2: u128)
    ensures
        file(two_records(first, n1, second, n2)) == row(first, n1 as nat) + row(second, n2 as nat),
{
    let records = two_records(first, n1, second, n2);
    reveal_with_fuel(file, 3);
    assert(records.skip(1) =~= seq![(second, n2 as nat)]);
    assert(records.skip(1).skip(1) =~= Seq::empty());
    assert(file(records) =~= row(first, n1 as nat) + row(second, n2 as nat));
}

/// The duration in a row covers the whole run of the closure, however short. `time` says when
/// the instants of the clock were, in nanoseconds, and the run lasted from `begin` to `finish`:
/// an instant that was taken while the closure was still to be called is no later than `begin`,
/// and what the clock tells once the result is there reaches from its instant to `finish` at
/// least. Then the row tells no less than the whole run, and so no less than the time between
/// any two moments of it.
pub proof fn law_duration_covers_the_run<T, F: FnOnce() -> T>(
    label: Seq<char>,
    f: F,
    r: (T, String),
    time: spec_fn(Instant) -> int,
    begin: int,
    finish: int,
)
    requires
        measures(label, f, r),
        forall|at: Instant| #[trigger] taken_before(f, at) ==> time(at) <= begin,
        forall|at: Instant, nanos: u128| #[trigger]
            read_after(r.0, at, nanos) ==> nanos >= finish - time(at),
    ensures
        exists|nanos: u128|
            nanos >= finish - begin && r.1@ == #[trigger] row(label, nanos as nat),
{
    let nanos = choose|nanos: u128|
        clocked(f, r.0, nanos) && r.1@ == #[trigger] row(label, nanos as nat);
    let at = choose|at: Instant| taken_before(f, at) && #[trigger] read_after(r.0, at, nanos);
    assert(nanos >= finish - time(at));
    assert(r.1@ == row(label, nanos as nat));
}

/// A measurement within another takes no longer than the one around it. `time` says when the
/// instants of the clock were: the outer one starts no later than `begin` and reads at least up
/// to `finish`, and the inner one starts no earlier than `begin` and reads at most up to
/// `finish`.
pub proof fn law_inner_durations_are_no_longer<
    T,
    G: FnOnce() -> T,
    F: FnOnce() -> (T, String),
>(
    inner: Seq<char>,
    g: G,
    outer: Seq<char>,
    f: F,
    r: ((T, String), String),
    time: spec_fn(Instant) -> int,
    begin: int,
    finish: int,
)
    requires
        forall|x: (T, String)| #[trigger] f.ensures((), x) ==> measures(inner, g, x),
        measures(outer, f, r),
        forall|at: Instant| #[trigger] taken_before(f, at) ==> time(at) <= begin,
        forall|at: Instant| #[trigger] taken_before(g, at) ==> time(at) >= begin,
        forall|at: Instant, nanos: u128| #[trigger]
            read_after(r.0, at, nanos) ==> nanos >= finish - time(at),
        forall|at: Instant, nanos: u128| #[trigger]
            read_after(r.0.0, at, nanos) ==> nanos <= finish - time(at),
    ensures
        exists|n1: u128, n2: u128|
            n1 <= n2 && r.0.1@ + r.1@ == #[trigger] file(two_records(inner, n1, outer, n2)),
{
    let n1 = choose|nanos: u128|
        clocked(g, r.0.0, nanos) && r.0.1@ == #[trigger] row(inner, nanos as nat);
    let n2 = choose|nanos: u128|
        clocked(f, r.0, nanos) && r.1@ == #[trigger] row(outer, nanos as nat);
    let from = choose|at: Instant| taken_before(g, at) && #[trigger] read_after(r.0.0, at, n1);
    let around = choose|at: Instant| taken_before(f, at) && #[trigger] read_after(r.0, at, n2);
    assert(n1 <= finish - time(from));
    assert(n2 >= finish - time(around));
    lemma_two_rows(inner, n1, outer, n2);
    assert(r.0.1@ + r.1@ == file(two_records(inner, n1, outer, n2)));
}

/// A row is the label, a tab, the duration in decimal and a line break: its digits stand for the
/// duration, and the first of them is no zero unless it is the only one.
pub proof fn law_record(profiler: KrunProfiler, label: &'static str, nanos: u128, r: String)
    requires
        call_ensures(KrunProfiler::record, (&profiler, label, nanos), r),
    ensures
        ({
            let at = label@.len() as int;
            let digits = r@.subrange(at + 1, r@.len() - 1);
            &&& r@.len() >= at + 3
            &&& r@.take(at) == label@
            &&& r@[at] == '\t'
            &&& r@.last() == '\n'
            &&& forall|i: int| 0 <= i < digits.len() ==> '0' <= #[trigger] digits[i] <= '9'
            &&& decimal_value(digits) == nanos
            &&& digits.len() > 1 ==> digits[0] != '0'
        }),
{
    lemma_decimal(nanos as nat);
    lemma_no_leading_zero(nanos as nat);
    let at = label@.len() as int;
    assert(r@.take(at) =~= label@);
    assert(r@.subrange(at + 1, r@.len() - 1) =~= decimal(nanos as nat));
}

proof fn lemma_no_leading_zero(n: nat)
    ensures
        decimal(n).len() > 0,
        n > 0 ==> decimal(n)[0] != '0',
        n == 0 ==> decimal(n).len() == 1,
    decreases n,
{
    if n >= 10 {
        lemma_no_leading_zero(n / 10);
    }
}

/// The row of a marker is the row of no time at all: the label, a tab and a zero.
pub proof fn law_markers_take_no_time(profiler: KrunProfiler, label: &'static str, r: String)
    requires
        call_ensures(KrunProfiler::record_marker, (&profiler, label), r),
    ensures
        r@ == label@ + seq!['\t', '0', '\n'],
{
    assert(decimal(0) =~= seq!['0']);
    assert(r@ =~= label@ + seq!['\t', '0', '\n']);
}

/// Profiling is there exactly if a path is, and it goes to that path.
pub proof fn law_profiling_goes_to_the_path_that_was_given(
    path: Option<PathBuf>,
    r: Option<KrunProfiler>,
    kept: &PathBuf,
)
    requires
        call_ensures(KrunProfiler::start, (path,), r),
        r matches Some(profiler) ==> call_ensures(KrunProfiler::get_path, (&profiler,), kept),
    ensures
        path is None ==> r is None,
        path matches Some(given) ==> r is Some && *kept == given,
{
}

} // verus!
