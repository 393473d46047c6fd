//! Target resolution: from what the operator chose to one live process.
//!
//! A selection names a process by its id, by text that holds an id, or by
//! its name. Resolution reads a snapshot of the process table and nothing
//! else. Several processes may share a name: the one with the lowest id is
//! taken, and of several records with that id, the first in the snapshot.

use vstd::prelude::*;
use crate::process::{snapshot_view, ProcessRecord, ProcessView};

verus! {

/// How the operator designates the target process.
#[derive(Debug, PartialEq, Eq)]
pub enum SelectionMethod {
    /// The process with this id.
    ByPID(u32),
    /// The process whose id this text spells out in decimal.
    ByPIDInput(String),
    /// The process with this name, letter case aside.
    ByProcessName(String),
}

/// A selection as a mathematical value.
pub enum SelectionView {
    ByPID(u32),
    ByPIDInput(Seq<char>),
    ByProcessName(Seq<char>),
}

impl View for SelectionMethod {
    type V = SelectionView;

    open spec fn view(&self) -> SelectionView {
        match self {
            SelectionMethod::ByPID(id) => SelectionView::ByPID(*id),
            SelectionMethod::ByPIDInput(text) => SelectionView::ByPIDInput(text@),
            SelectionMethod::ByProcessName(pattern) => SelectionView::ByProcessName(pattern@),
        }
    }
}

/// Why a selection designates no process.
#[derive(Clone, Copy, Debug, PartialEq, Eq, Structural)]
pub enum TargetError {
    /// No live process has the id or the name asked for.
    NotFound,
    /// The text is not a process id.
    InvalidInput,
    /// Several processes fit and none may be preferred. Resolution by name
    /// prefers the lowest id, so it never reports this.
    AmbiguousMatch,
}

/// Whether `c` is one of the ten decimal digits.
pub open spec fn is_digit(c: char) -> bool {
    '0' <= c && c <= '9'
}

/// The number a decimal digit stands for.
pub open spec fn digit_value(c: char) -> nat {
    if is_digit(c) {
        (c as u32 - '0' as u32) as nat
    } else {
        0
    }
}

/// The number that a run of decimal digits spells out.
pub open spec fn decimal_value(digits: Seq<char>) -> nat
    decreases digits.len(),
{
    if digits.len() == 0 {
        0
    } else {
        10 * decimal_value(digits.drop_last()) + digit_value(digits.last())
    }
}

/// Whether `digits` is a run of one or more decimal digits.
pub open spec fn is_decimal(digits: Seq<char>) -> bool {
    digits.len() > 0 && forall|i: int| 0 <= i < digits.len() ==> is_digit(#[trigger] digits[i])
}

/// The text without the plus sign that may lead it.
pub open spec fn unsigned_part(text: Seq<char>) -> Seq<char> {
    if text.len() > 0 && text[0] == '+' {
        text.drop_first()
    } else {
        text
    }
}

/// The process id that `text` spells out: an optional plus sign, then one or
/// more decimal digits and nothing else, of a value that fits 32 bits.
/// Any other text spells out none.
pub open spec fn parse_process_id_spec(text: Seq<char>) -> Option<u32> {
    let digits = unsigned_part(text);
    if is_decimal(digits) && decimal_value(digits) <= u32::MAX {
        Some(decimal_value(digits) as u32)
    } else {
        None
    }
}

/// A run of digits is worth at least as much as any of its beginnings.
proof fn lemma_decimal_value_grows(digits: Seq<char>, n: int)
    requires
        0 <= n <= digits.len(),
    ensures
        decimal_value(digits.take(n)) <= decimal_value(digits),
    decreases digits.len(),
{
    if n == digits.len() {
        assert(digits.take(n) == digits);
    } else {
        assert(digits.drop_last().take(n) == digits.take(n));
        lemma_decimal_value_grows(digits.drop_last(), n);
    }
}

/// Reads a process id from text entered by the operator.
pub fn parse_process_id(text: &str) -> (id: Option<u32>)
    ensures
        id == parse_process_id_spec(text@),
{
    let ghost digits = unsigned_part(text@);
    let ghost mut count: int = 0;
    let mut value: u32 = 0;
    let mut signed: bool = false;
    let mut first: bool = true;
    let mut any_digit: bool = false;
    for c in it: text.chars()
        invariant
            it.seq() == text@,
            digits == unsigned_part(text@),
            first == (it.index() == 0),
            !first ==> signed == (text@[0] == '+'),
            first ==> !signed,
            count == it.index() - (if signed { 1int } else { 0int }),
            0 <= count <= digits.len(),
            any_digit == (count > 0),
            forall|i: int| 0 <= i < count ==> is_digit(#[trigger] digits[i]),
            value == decimal_value(digits.take(count)),
    {
        if first && c == '+' {
            signed = true;
            first = false;
            assert(digits.take(0) == Seq::<char>::empty());
        } else {
            first = false;
            assert(digits[count] == c);
            if !(c >= '0' && c <= '9') {
                return None;
            }
            let digit: u32 = c as u32 - '0' as u32;
            let wide: u64 = value as u64 * 10 + digit as u64;
            proof {
                assert(digits.take(count + 1).drop_last() == digits.take(count));
                assert(digits.take(count + 1).last() == c);
                assert(wide == decimal_value(digits.take(count + 1)));
            }
            if wide > u32::MAX as u64 {
                proof {
                    if is_decimal(digits) {
                        lemma_decimal_value_grows(digits, count + 1);
                    }
                }
                return None;
            }
            value = wide as u32;
            any_digit = true;
            proof {
                count = count + 1;
            }
        }
    }
    assert(digits.take(count) == digits);
    if any_digit {
        Some(value)
    } else {
        None
    }
}

/// The code of a character once letter case is set aside: a capital letter
/// of the Latin alphabet counts as its small letter, any other character as
/// itself.
pub open spec fn folded_code(c: char) -> u32 {
    if 'A' <= c && c <= 'Z' {
        (c as u32 + 32) as u32
    } else {
        c as u32
    }
}

/// The codes of a text's characters, letter case set aside.
pub open spec fn folded(text: Seq<char>) -> Seq<u32> {
    Seq::new(text.len(), |i: int| folded_code(text[i]))
}

/// Two names match when they have the same length and the same characters
/// place by place, letter case set aside.
pub open spec fn names_match_spec(a: Seq<char>, b: Seq<char>) -> bool {
    folded(a) == folded(b)
}

fn fold_char(c: char) -> (code: u32)
    ensures
        code == folded_code(c),
{
    let code: u32 = c as u32;
    if c >= 'A' && c <= 'Z' {
        code + 32
    } else {
        code
    }
}

fn fold_text(text: &str) -> (codes: Vec<u32>)
    ensures
        codes@ == folded(text@),
{
    let mut codes: Vec<u32> = Vec::new();
    for c in it: text.chars()
        invariant
            it.seq() == text@,
            codes@ == folded(text@.take(it.index() as int)),
    {
        codes.push(fold_char(c));
    }
    codes
}

fn same_codes(a: &Vec<u32>, b: &Vec<u32>) -> (same: bool)
    ensures
        same == (a@ == b@),
{
    if a.len() != b.len() {
        return false;
    }
    let mut i: usize = 0;
    while i < a.len()
        invariant
            a.len() == b.len(),
            i <= a.len(),
            forall|j: int| 0 <= j < i ==> a@[j] == b@[j],
        decreases a.len() - i,
    {
        if a[i] != b[i] {
            return false;
        }
        i += 1;
    }
    assert(a@ =~= b@);
    true
}

/// Whether two process names are the same name, letter case aside.
pub fn names_match(a: &str, b: &str) -> (same: bool)
    ensures
        same == names_match_spec(a@, b@),
{
    let left = fold_text(a);
    let right = fold_text(b);
    same_codes(&left, &right)
}

/// The record at `i` has the id `id`.
pub open spec fn has_id(records: Seq<ProcessView>, id: u32, i: int) -> bool {
    0 <= i < records.len() && records[i].process_id == id
}

/// The record at `i` is the first of the snapshot with the id `id`.
pub open spec fn first_with_id(records: Seq<ProcessView>, id: u32, i: int) -> bool {
    &&& has_id(records, id, i)
    &&& forall|j: int| 0 <= j < i ==> !has_id(records, id, j)
}

/// The record at `i` bears the name `pattern`, letter case aside.
pub open spec fn has_name(records: Seq<ProcessView>, pattern: Seq<char>, i: int) -> bool {
    0 <= i < records.len() && names_match_spec(records[i].name, pattern)
}

/// The record at `i` is the one that a selection by name takes: it bears the
/// name, no record that bears it has a lower id, and none before it has the
/// same id.
pub open spec fn lowest_with_name(records: Seq<ProcessView>, pattern: Seq<char>, i: int) -> bool {
    &&& has_name(records, pattern, i)
    &&& forall|j: int| #[trigger]
        has_name(records, pattern, j) ==> records[i].process_id <= records[j].process_id
    &&& forall|j: int|
        0 <= j < i && #[trigger] has_name(records, pattern, j) ==> records[j].process_id
            != records[i].process_id
}

/// Where in the snapshot the process with the id `id` is, or `NotFound`.
pub open spec fn lookup_id(records: Seq<ProcessView>, id: u32) -> Result<int, TargetError> {
    if exists|i: int| has_id(records, id, i) {
        Ok(choose|i: int| first_with_id(records, id, i))
    } else {
        Err(TargetError::NotFound)
    }
}

/// Where in the snapshot the process named `pattern` is, or `NotFound`.
pub open spec fn lookup_name(records: Seq<ProcessView>, pattern: Seq<char>) -> Result<
    int,
    TargetError,
> {
    if exists|i: int| has_name(records, pattern, i) {
        Ok(choose|i: int| lowest_with_name(records, pattern, i))
    } else {
        Err(TargetError::NotFound)
    }
}

/// What a selection resolves to in a snapshot: the place of the record it
/// designates, or the reason why it designates none.
///
/// Text that spells out no process id is refused as `InvalidInput`; it is
/// never tried as a name.
pub open spec fn resolution(method: SelectionView, records: Seq<ProcessView>) -> Result<
    int,
    TargetError,
> {
    match method {
        SelectionView::ByPID(id) => lookup_id(records, id),
        SelectionView::ByPIDInput(text) => match parse_process_id_spec(text) {
            Some(id) => lookup_id(records, id),
            None => Err(TargetError::InvalidInput),
        },
        SelectionView::ByProcessName(pattern) => lookup_name(records, pattern),
    }
}

/// Only one record of a snapshot is the first with a given id.
pub proof fn lemma_first_with_id_unique(records: Seq<ProcessView>, id: u32, i: int, k: int)
    requires
        first_with_id(records, id, i),
        first_with_id(records, id, k),
    ensures
        i == k,
{
}

/// Only one record of a snapshot is taken by a selection by name.
pub proof fn lemma_lowest_with_name_unique(
    records: Seq<ProcessView>,
    pattern: Seq<char>,
    i: int,
    k: int,
)
    requires
        lowest_with_name(records, pattern, i),
        lowest_with_name(records, pattern, k),
    ensures
        i == k,
{
}

fn find_by_id(snapshot: &[ProcessRecord], id: u32) -> (found: Result<ProcessRecord, TargetError>)
    ensures
        match found {
            Ok(record) => lookup_id(snapshot_view(snapshot@), id) matches Ok(i) && 0 <= i
                < snapshot@.len() && record == snapshot@[i],
            Err(e) => lookup_id(snapshot_view(snapshot@), id) == Err::<int, TargetError>(e),
        },
{
    let ghost records = snapshot_view(snapshot@);
    let mut i: usize = 0;
    while i < snapshot.len()
        invariant
            i <= snapshot.len(),
            records == snapshot_view(snapshot@),
            forall|j: int| 0 <= j < i ==> !has_id(records, id, j),
        decreases snapshot.len() - i,
    {
        if snapshot[i].process_id == id {
            proof {
                assert(first_with_id(records, id, i as int));
                let chosen = choose|k: int| first_with_id(records, id, k);
                lemma_first_with_id_unique(records, id, i as int, chosen);
            }
            return Ok(snapshot[i].clone());
        }
        i += 1;
    }
    Err(TargetError::NotFound)
}

fn find_by_name(snapshot: &[ProcessRecord], pattern: &str) -> (found: Result<
    ProcessRecord,
    TargetError,
>)
    ensures
        match found {
            Ok(record) => lookup_name(snapshot_view(snapshot@), pattern@) matches Ok(i) && 0 <= i
                < snapshot@.len() && record == snapshot@[i],
            Err(e) => lookup_name(snapshot_view(snapshot@), pattern@) == Err::<int, TargetError>(
                e,
            ),
        },
{
    let ghost records = snapshot_view(snapshot@);
    let wanted = fold_text(pattern);
    let mut best: Option<usize> = None;
    let mut i: usize = 0;
    while i < snapshot.len()
        invariant
            i <= snapshot.len(),
            records == snapshot_view(snapshot@),
            wanted@ == folded(pattern@),
            best is None ==> forall|j: int| 0 <= j < i ==> !has_name(records, pattern@, j),
            best matches Some(b) ==> {
                &&& b < i
                &&& has_name(records, pattern@, b as int)
                &&& forall|j: int|
                    0 <= j < i && #[trigger] has_name(records, pattern@, j)
                        ==> records[b as int].process_id <= records[j].process_id
                &&& forall|j: int|
                    0 <= j < b && #[trigger] has_name(records, pattern@, j) ==> records[j].process_id
                        != records[b as int].process_id
            },
        decreases snapshot.len() - i,
    {
        let name = fold_text(snapshot[i].name.as_str());
        if same_codes(&name, &wanted) {
            assert(has_name(records, pattern@, i as int));
            match best {
                None => {
                    best = Some(i);
                },
                Some(b) => {
                    if snapshot[i].process_id < snapshot[b].process_id {
                        best = Some(i);
                    }
                },
            }
        } else {
            assert(!has_name(records, pattern@, i as int));
        }
        i += 1;
    }
    match best {
        None => Err(TargetError::NotFound),
        Some(b) => {
            proof {
                assert(lowest_with_name(records, pattern@, b as int));
                let chosen = choose|k: int| lowest_with_name(records, pattern@, k);
                lemma_lowest_with_name_unique(records, pattern@, b as int, chosen);
            }
            Ok(snapshot[b].clone())
        },
    }
}

/// Resolves a selection to one live process of `snapshot`.
///
/// By id, the process with that id, or `NotFound`. By text, the text must
/// spell out an id (else `InvalidInput`), which is then looked up as an id.
/// By name, the process of that name, letter case aside, with the lowest
/// id, or `NotFound`. The record returned is the snapshot's own.
pub fn resolve(method: &SelectionMethod, snapshot: &[ProcessRecord]) -> (found: Result<
    ProcessRecord,
    TargetError,
>)
    ensures
        match found {
            Ok(record) => resolution(method@, snapshot_view(snapshot@)) matches Ok(i) && 0 <= i
                < snapshot@.len() && record == snapshot@[i],
            Err(e) => resolution(method@, snapshot_view(snapshot@)) == Err::<int, TargetError>(e),
        },
{
    match method {
        SelectionMethod::ByPID(id) => find_by_id(snapshot, *id),
        SelectionMethod::ByPIDInput(text) => match parse_process_id(text.as_str()) {
            Some(id) => find_by_id(snapshot, id),
            None => Err(TargetError::InvalidInput),
        },
        SelectionMethod::ByProcessName(pattern) => find_by_name(snapshot, pattern.as_str()),
    }
}

/// An id that no record of the snapshot has is not found.
pub proof fn law_absent_id_is_not_found(records: Seq<ProcessView>, id: u32)
    requires
        forall|i: int| 0 <= i < records.len() ==> (#[trigger] records[i]).process_id != id,
    ensures
        resolution(SelectionView::ByPID(id), records) == Err::<int, TargetError>(
            TargetError::NotFound,
        ),
{
}

/// Text that spells out no process id is refused as invalid input, whatever
/// the snapshot holds: it is not tried as a name, even where a process
/// bears that very text as its name.
pub proof fn law_invalid_text_is_rejected(records: Seq<ProcessView>, text: Seq<char>)
    requires
        parse_process_id_spec(text) is None,
    ensures
        resolution(SelectionView::ByPIDInput(text), records) == Err::<int, TargetError>(
            TargetError::InvalidInput,
        ),
{
}

/// Text that spells out a process id resolves as that id does.
pub proof fn law_text_resolves_as_its_id(records: Seq<ProcessView>, text: Seq<char>, id: u32)
    requires
        parse_process_id_spec(text) == Some(id),
    ensures
        resolution(SelectionView::ByPIDInput(text), records) == resolution(
            SelectionView::ByPID(id),
            records,
        ),
{
}

/// A selection by id that resolves, resolves to the first record with that
/// id.
pub proof fn law_id_resolves_to_first(records: Seq<ProcessView>, id: u32)
    requires
        exists|i: int| has_id(records, id, i),
    ensures
        resolution(SelectionView::ByPID(id), records) matches Ok(i) && first_with_id(
            records,
            id,
            i,
        ),
{
    lemma_some_first_with_id(records, id, records.len() as int);
}

/// A selection by name that some record fits resolves, and to a record of
/// that name than which no other of that name has a lower id.
pub proof fn law_name_resolves_to_lowest_id(records: Seq<ProcessView>, pattern: Seq<char>)
    requires
        exists|i: int| has_name(records, pattern, i),
    ensures
        resolution(SelectionView::ByProcessName(pattern), records) matches Ok(i)
            && lowest_with_name(records, pattern, i),
{
    lemma_some_lowest_with_name(records, pattern, records.len() as int);
}

/// No two records of the snapshot have the same id.
pub open spec fn ids_are_distinct(records: Seq<ProcessView>) -> bool {
    forall|i: int, j: int|
        0 <= i < records.len() && 0 <= j < records.len() && i != j ==> (#[trigger] records[i]).process_id
            != (#[trigger] records[j]).process_id
}

/// Two snapshots hold the same records, in whatever order.
pub open spec fn same_records(a: Seq<ProcessView>, b: Seq<ProcessView>) -> bool {
    forall|record: ProcessView| a.contains(record) <==> b.contains(record)
}

/// The order of the snapshot does not matter: of two snapshots that hold
/// the same records, each id once, a selection designates the same process
/// in both, or none in either.
pub proof fn law_resolution_ignores_order(
    method: SelectionView,
    a: Seq<ProcessView>,
    b: Seq<ProcessView>,
)
    requires
        same_records(a, b),
        ids_are_distinct(a),
        ids_are_distinct(b),
    ensures
        match (resolution(method, a), resolution(method, b)) {
            (Ok(i), Ok(k)) => 0 <= i < a.len() && 0 <= k < b.len() && a[i] == b[k],
            (Err(e), Err(f)) => e == f,
            _ => false,
        },
{
    match method {
        SelectionView::ByPID(id) => {
            lemma_lookup_id_ignores_order(a, b, id);
        },
        SelectionView::ByPIDInput(text) => {
            match parse_process_id_spec(text) {
                Some(id) => {
                    lemma_lookup_id_ignores_order(a, b, id);
                },
                None => {},
            }
        },
        SelectionView::ByProcessName(pattern) => {
            lemma_lookup_name_ignores_order(a, b, pattern);
        },
    }
}

proof fn lemma_lookup_id_ignores_order(a: Seq<ProcessView>, b: Seq<ProcessView>, id: u32)
    requires
        same_records(a, b),
        ids_are_distinct(a),
        ids_are_distinct(b),
    ensures
        match (lookup_id(a, id), lookup_id(b, id)) {
            (Ok(i), Ok(k)) => 0 <= i < a.len() && 0 <= k < b.len() && a[i] == b[k],
            (Err(e), Err(f)) => e == f,
            _ => false,
        },
{
    if exists|i: int| has_id(a, id, i) {
        let i0 = choose|i: int| has_id(a, id, i);
        assert(a.contains(a[i0]));
        let k0 = choose|k: int| 0 <= k < b.len() && b[k] == a[i0];
        assert(has_id(b, id, k0));
        law_id_resolves_to_first(a, id);
        law_id_resolves_to_first(b, id);
        let i = lookup_id(a, id)->Ok_0;
        let k = lookup_id(b, id)->Ok_0;
        assert(b.contains(b[k]));
        let i1 = choose|i1: int| 0 <= i1 < a.len() && a[i1] == b[k];
        assert(a[i1].process_id == a[i].process_id);
    } else if exists|k: int| has_id(b, id, k) {
        let k0 = choose|k: int| has_id(b, id, k);
        assert(b.contains(b[k0]));
        let i0 = choose|i: int| 0 <= i < a.len() && a[i] == b[k0];
        assert(has_id(a, id, i0));
    }
}

proof fn lemma_lookup_name_ignores_order(
    a: Seq<ProcessView>,
    b: Seq<ProcessView>,
    pattern: Seq<char>,
)
    requires
        same_records(a, b),
        ids_are_distinct(a),
        ids_are_distinct(b),
    ensures
        match (lookup_name(a, pattern), lookup_name(b, pattern)) {
            (Ok(i), Ok(k)) => 0 <= i < a.len() && 0 <= k < b.len() && a[i] == b[k],
            (Err(e), Err(f)) => e == f,
            _ => false,
        },
{
    if exists|i: int| has_name(a, pattern, i) {
        let i0 = choose|i: int| has_name(a, pattern, i);
        assert(a.contains(a[i0]));
        let k0 = choose|k: int| 0 <= k < b.len() && b[k] == a[i0];
        assert(has_name(b, pattern, k0));
        law_name_resolves_to_lowest_id(a, pattern);
        law_name_resolves_to_lowest_id(b, pattern);
        let i = lookup_name(a, pattern)->Ok_0;
        let k = lookup_name(b, pattern)->Ok_0;
        // The process chosen in each snapshot is also in the other, where it
        // bears the name too; so neither id is lower than the other.
        assert(a.contains(a[i]));
        let k1 = choose|k1: int| 0 <= k1 < b.len() && b[k1] == a[i];
        assert(has_name(b, pattern, k1));
        assert(b.contains(b[k]));
        let i1 = choose|i1: int| 0 <= i1 < a.len() && a[i1] == b[k];
        assert(has_name(a, pattern, i1));
        assert(a[i1].process_id == a[i].process_id);
    } else if exists|k: int| has_name(b, pattern, k) {
        let k0 = choose|k: int| has_name(b, pattern, k);
        assert(b.contains(b[k0]));
        let i0 = choose|i: int| 0 <= i < a.len() && a[i] == b[k0];
        assert(has_name(a, pattern, i0));
    }
}

/// Resolution never reports an ambiguous match: where several processes fit
/// it prefers one.
pub proof fn law_never_ambiguous(method: SelectionView, records: Seq<ProcessView>)
    ensures
        resolution(method, records) != Err::<int, TargetError>(TargetError::AmbiguousMatch),
{
}

/// Among the first `n` records, if one has the id then one is the first
/// with it.
proof fn lemma_some_first_with_id(records: Seq<ProcessView>, id: u32, n: int)
    requires
        0 <= n <= records.len(),
    ensures
        (exists|i: int| 0 <= i < n && has_id(records, id, i)) ==> exists|i: int|
            0 <= i < n && first_with_id(records, id, i),
    decreases n,
{
    if n > 0 {
        let m = n - 1;
        lemma_some_first_with_id(records, id, m);
        if exists|i: int| 0 <= i < m && has_id(records, id, i) {
            let w = choose|i: int| 0 <= i < m && first_with_id(records, id, i);
            assert(0 <= w < n && first_with_id(records, id, w));
        } else if has_id(records, id, m) {
            assert(first_with_id(records, id, m));
        }
    }
}

/// The record at `i` is the one that a selection by name would take if the
/// snapshot ended after its first `n` records.
spec fn lowest_with_name_among(
    records: Seq<ProcessView>,
    pattern: Seq<char>,
    n: int,
    i: int,
) -> bool {
    &&& 0 <= i < n
    &&& has_name(records, pattern, i)
    &&& forall|j: int|
        0 <= j < n && #[trigger] has_name(records, pattern, j) ==> records[i].process_id
            <= records[j].process_id
    &&& forall|j: int|
        0 <= j < i && #[trigger] has_name(records, pattern, j) ==> records[j].process_id
            != records[i].process_id
}

proof fn lemma_some_lowest_with_name_among(records: Seq<ProcessView>, pattern: Seq<char>, n: int)
    requires
        0 <= n <= records.len(),
    ensures
        (exists|i: int| 0 <= i < n && has_name(records, pattern, i)) ==> exists|i: int|
            lowest_with_name_among(records, pattern, n, i),
    decreases n,
{
    if n > 0 {
        let m = n - 1;
        lemma_some_lowest_with_name_among(records, pattern, m);
        if exists|i: int| 0 <= i < m && has_name(records, pattern, i) {
            let w = choose|i: int| lowest_with_name_among(records, pattern, m, i);
            if has_name(records, pattern, m) && records[m].process_id < records[w].process_id {
                assert(lowest_with_name_among(records, pattern, n, m));
            } else {
                assert(lowest_with_name_among(records, pattern, n, w));
            }
        } else if has_name(records, pattern, m) {
            assert(lowest_with_name_among(records, pattern, n, m));
        }
    }
}

proof fn lemma_some_lowest_with_name(records: Seq<ProcessView>, pattern: Seq<char>, n: int)
    requires
        n == records.len(),
    ensures
        (exists|i: int| has_name(records, pattern, i)) ==> exists|i: int|
            lowest_with_name(records, pattern, i),
{
    lemma_some_lowest_with_name_among(records, pattern, n);
    if exists|i: int| has_name(records, pattern, i) {
        let h = choose|i: int| has_name(records, pattern, i);
        assert(0 <= h < n && has_name(records, pattern, h));
        let w = choose|i: int| lowest_with_name_among(records, pattern, n, i);
        assert(lowest_with_name(records, pattern, w));
    }
}

} // verus!
