//! The grammars of the collection-valued settings, all over comma-separated text:
//! lists, sets of names, sign-prefixed override maps and keyed entries.

use crate::dict::{Dict, NameSet};
use crate::duration::{duration_nanos, parse_duration, NANOS_PER_SECOND};
use crate::error::{ConfigError, Failure, RunLimit};
use crate::number::{converts, decimal_value, string_to_num, Malformed, Number};
use crate::text::{split, split_on, to_chars, trim, trimmed};
use vstd::prelude::*;

verus! {

/// The values of a vector of numbers.
pub open spec fn values<T: Number>(v: Seq<T>) -> Seq<int> {
    Seq::new(v.len(), |i: int| v[i].value())
}

/// The numbers that the pieces write, or the first piece that writes none.
pub open spec fn numbers_of<T: Number>(pieces: Seq<Seq<char>>) -> Result<Seq<int>, Seq<char>>
    decreases pieces.len(),
{
    if pieces.len() == 0 {
        Ok(Seq::<int>::empty())
    } else {
        match numbers_of::<T>(pieces.drop_last()) {
            Err(bad) => Err(bad),
            Ok(front) => if converts::<T>(pieces.last()) {
                Ok(front.push(decimal_value(pieces.last())))
            } else {
                Err(pieces.last())
            },
        }
    }
}

/// The set of the pieces that are not empty.
pub open spec fn names_of(pieces: Seq<Seq<char>>) -> Set<Seq<char>>
    decreases pieces.len(),
{
    if pieces.len() == 0 {
        Set::empty()
    } else if pieces.last().len() > 0 {
        names_of(pieces.drop_last()).insert(pieces.last())
    } else {
        names_of(pieces.drop_last())
    }
}

/// What one entry of an override map says: `+key` forces the key on, `-key`
/// forces it off. An entry with another first character, or with nothing
/// after the sign, says nothing.
pub open spec fn override_entry(entry: Seq<char>) -> Option<(Seq<char>, bool)> {
    if entry.len() >= 2 && entry[0] == '+' {
        Some((entry.skip(1), true))
    } else if entry.len() >= 2 && entry[0] == '-' {
        Some((entry.skip(1), false))
    } else {
        None
    }
}

/// The override map that the entries write; a later entry comes over an
/// earlier one of the same key.
pub open spec fn overrides_of(entries: Seq<Seq<char>>) -> Map<Seq<char>, bool>
    decreases entries.len(),
{
    if entries.len() == 0 {
        Map::empty()
    } else {
        let front = overrides_of(entries.drop_last());
        match override_entry(entries.last()) {
            Some((key, on)) => front.insert(key, on),
            None => front,
        }
    }
}

/// Which of `true` and `false` a set of booleans holds.
#[derive(Debug, Clone, Copy, PartialEq, Eq, Structural)]
pub struct BoolSet {
    pub has_true: bool,
    pub has_false: bool,
}

impl BoolSet {
    /// The set that holds neither.
    pub open spec fn none() -> BoolSet {
        BoolSet { has_true: false, has_false: false }
    }

    /// The set with `b` put in.
    pub open spec fn with(self, b: bool) -> BoolSet {
        if b {
            BoolSet { has_true: true, has_false: self.has_false }
        } else {
            BoolSet { has_true: self.has_true, has_false: true }
        }
    }
}

impl View for BoolSet {
    type V = Set<bool>;

    open spec fn view(&self) -> Set<bool> {
        Set::new(|b: bool| (b && self.has_true) || (!b && self.has_false))
    }
}

/// What one entry of a period map says: `period:t` or `period:f`, the second
/// field trimmed. An entry of another shape says nothing.
pub open spec fn period_entry(entry: Seq<char>) -> Option<(Seq<char>, bool)> {
    let fields = split_on(entry, ':');
    if fields.len() != 2 {
        None
    } else if trimmed(fields[1]) =~= seq!['t'] {
        Some((fields[0], true))
    } else if trimmed(fields[1]) =~= seq!['f'] {
        Some((fields[0], false))
    } else {
        None
    }
}

/// The period map that the entries write: each period with the booleans that
/// its entries name.
pub open spec fn periods_of(entries: Seq<Seq<char>>) -> Map<Seq<char>, BoolSet>
    decreases entries.len(),
{
    if entries.len() == 0 {
        Map::empty()
    } else {
        let front = periods_of(entries.drop_last());
        match period_entry(entries.last()) {
            Some((key, b)) => {
                let had = if front.contains_key(key) {
                    front[key]
                } else {
                    BoolSet::none()
                };
                front.insert(key, had.with(b))
            },
            None => front,
        }
    }
}

/// What one entry of a run-duration map says.
pub enum RunEntry {
    /// The entry has not three fields: it is passed over.
    Skipped,
    /// The second field, trimmed, is no duration.
    BadDuration(Seq<char>),
    /// The third field, trimmed, is no status.
    BadStatus(Seq<char>),
    /// `program:duration:status`, each field trimmed.
    Limit(Seq<char>, RunLimit),
}

/// What the entry `entry` of a run-duration map says.
pub open spec fn run_entry(entry: Seq<char>) -> RunEntry {
    let fields = split_on(entry, ':');
    if fields.len() != 3 {
        RunEntry::Skipped
    } else {
        let program = trimmed(fields[0]);
        let span = trimmed(fields[1]);
        let status = trimmed(fields[2]);
        match duration_nanos(span) {
            None => RunEntry::BadDuration(span),
            Some(nanos) => if converts::<i32>(status) {
                RunEntry::Limit(
                    program,
                    RunLimit {
                        seconds: (nanos / (NANOS_PER_SECOND as int)) as u64,
                        status: decimal_value(status) as i32,
                    },
                )
            } else {
                RunEntry::BadStatus(status)
            },
        }
    }
}

/// The run-duration map that the entries of `variable` write, or what stops at
/// the first entry that is malformed or names a program again.
pub open spec fn run_limits_of(variable: Seq<char>, entries: Seq<Seq<char>>) -> Result<
    Map<Seq<char>, RunLimit>,
    Failure,
>
    decreases entries.len(),
{
    if entries.len() == 0 {
        Ok(Map::empty())
    } else {
        match run_limits_of(variable, entries.drop_last()) {
            Err(e) => Err(e),
            Ok(front) => match run_entry(entries.last()) {
                RunEntry::Skipped => Ok(front),
                RunEntry::BadDuration(span) => Err(
                    Failure::MalformedValue { variable, value: span, target: "duration"@ },
                ),
                RunEntry::BadStatus(status) => Err(
                    Failure::MalformedValue { variable, value: status, target: "i32"@ },
                ),
                RunEntry::Limit(program, limit) => if front.contains_key(program) {
                    Err(
                        Failure::DuplicateDefinition {
                            variable,
                            key: program,
                            existing: front[program],
                        },
                    )
                } else {
                    Ok(front.insert(program, limit))
                },
            },
        }
    }
}

/// Reads a list of numbers.
pub fn number_list<T: Number>(raw: &str) -> (r: Result<Vec<T>, Malformed>)
    ensures
        r is Ok <==> numbers_of::<T>(split_on(raw@, ',')) is Ok,
        r matches Ok(v) ==> values(v@) == numbers_of::<T>(split_on(raw@, ','))->Ok_0,
        r matches Err(e) ==> e.value@ == numbers_of::<T>(split_on(raw@, ','))->Err_0 && e.target@
            == T::target_name(),
{
    let pieces = split(raw, ',');
    let n: usize = pieces.len();
    let mut out: Vec<T> = Vec::new();
    let mut i: usize = 0;
    assert(pieces.deep_view().take(0) =~= Seq::<Seq<char>>::empty());
    assert(values(out@) =~= Seq::<int>::empty());
    while i < n
        invariant
            i <= n,
            n == pieces.len(),
            pieces.deep_view() == split_on(raw@, ','),
            numbers_of::<T>(pieces.deep_view().take(i as int)) == Ok::<Seq<int>, Seq<char>>(
                values(out@),
            ),
        decreases n - i,
    {
        let ghost all = pieces.deep_view();
        let ghost before = values(out@);
        assert(all.take(i + 1).drop_last() =~= all.take(i as int));
        assert(all.take(i + 1).last() == pieces@[i as int]@);
        match string_to_num::<T>(pieces[i].as_str()) {
            Ok(v) => {
                out.push(v);
                assert(values(out@) =~= before.push(v.value()));
            },
            Err(e) => {
                proof {
                    lemma_numbers_of_stops::<T>(all, i as int);
                }
                return Err(e);
            },
        }
        i += 1;
    }
    assert(pieces.deep_view().take(n as int) =~= pieces.deep_view());
    Ok(out)
}

/// Once a front part of the pieces fails, all of them fail, at the same piece.
pub proof fn lemma_numbers_of_stops<T: Number>(pieces: Seq<Seq<char>>, k: int)
    requires
        0 <= k < pieces.len(),
        numbers_of::<T>(pieces.take(k + 1)) is Err,
    ensures
        numbers_of::<T>(pieces) == numbers_of::<T>(pieces.take(k + 1)),
    decreases pieces.len() - k,
{
    if k + 1 == pieces.len() {
        assert(pieces.take(k + 1) =~= pieces);
    } else {
        assert(pieces.take(k + 2).drop_last() =~= pieces.take(k + 1));
        lemma_numbers_of_stops::<T>(pieces, k + 1);
    }
}

/// Reads a set of names; empty pieces are passed over.
pub fn name_set(raw: &str) -> (r: NameSet)
    ensures
        r.wf(),
        r@ == names_of(split_on(raw@, ',')),
{
    let pieces = split(raw, ',');
    let n: usize = pieces.len();
    let mut out = NameSet::new();
    let mut i: usize = 0;
    assert(pieces.deep_view().take(0) =~= Seq::<Seq<char>>::empty());
    while i < n
        invariant
            i <= n,
            n == pieces.len(),
            pieces.deep_view() == split_on(raw@, ','),
            out.wf(),
            out@ == names_of(pieces.deep_view().take(i as int)),
        decreases n - i,
    {
        let ghost all = pieces.deep_view();
        assert(all.take(i + 1).drop_last() =~= all.take(i as int));
        assert(all.take(i + 1).last() == pieces@[i as int]@);
        let piece: &str = pieces[i].as_str();
        if piece.unicode_len() > 0 {
            out.insert(piece.to_owned());
        }
        i += 1;
    }
    assert(pieces.deep_view().take(n as int) =~= pieces.deep_view());
    out
}

/// Reads one entry of an override map.
pub fn read_override(entry: &str) -> (r: Option<(String, bool)>)
    ensures
        r is Some <==> override_entry(entry@) is Some,
        r matches Some(e) ==> (e.0@, e.1) == override_entry(entry@)->Some_0,
{
    let n: usize = entry.unicode_len();
    if n < 2 {
        return None;
    }
    let sign: char = entry.get_char(0);
    if sign == '+' || sign == '-' {
        let key = entry.substring_char(1, n).to_owned();
        assert(key@ =~= entry@.skip(1));
        Some((key, sign == '+'))
    } else {
        None
    }
}

/// Reads a sign-prefixed override map.
pub fn override_map(raw: &str) -> (r: Dict<bool>)
    ensures
        r.wf(),
        r@ == overrides_of(split_on(raw@, ',')),
{
    let pieces = split(raw, ',');
    let n: usize = pieces.len();
    let mut out: Dict<bool> = Dict::new();
    let mut i: usize = 0;
    assert(pieces.deep_view().take(0) =~= Seq::<Seq<char>>::empty());
    while i < n
        invariant
            i <= n,
            n == pieces.len(),
            pieces.deep_view() == split_on(raw@, ','),
            out.wf(),
            out@ == overrides_of(pieces.deep_view().take(i as int)),
        decreases n - i,
    {
        let ghost all = pieces.deep_view();
        assert(all.take(i + 1).drop_last() =~= all.take(i as int));
        assert(all.take(i + 1).last() == pieces@[i as int]@);
        match read_override(pieces[i].as_str()) {
            Some((key, on)) => {
                out.insert(key, on);
            },
            None => {},
        }
        i += 1;
    }
    assert(pieces.deep_view().take(n as int) =~= pieces.deep_view());
    out
}

/// Reads one entry of a period map.
pub fn read_period(entry: &str) -> (r: Option<(String, bool)>)
    ensures
        r is Some <==> period_entry(entry@) is Some,
        r matches Some(e) ==> (e.0@, e.1) == period_entry(entry@)->Some_0,
{
    let mut fields = split(entry, ':');
    if fields.len() != 2 {
        return None;
    }
    assert(fields.deep_view()[0] == fields@[0]@);
    assert(fields.deep_view()[1] == fields@[1]@);
    let mode = to_chars(trim(fields[1].as_str()));
    if mode.len() != 1 {
        return None;
    }
    let c: char = mode[0];
    if c == 't' || c == 'f' {
        assert(mode@ =~= seq![c]);
        fields.pop();
        let key = fields.pop().unwrap();
        Some((key, c == 't'))
    } else {
        assert(!(mode@ =~= seq!['t']) && !(mode@ =~= seq!['f'])) by {
            assert(mode@[0] == c);
        }
        None
    }
}

/// Reads a period map.
pub fn period_map(raw: &str) -> (r: Dict<BoolSet>)
    ensures
        r.wf(),
        r@ == periods_of(split_on(raw@, ',')),
{
    let pieces = split(raw, ',');
    let n: usize = pieces.len();
    let mut out: Dict<BoolSet> = Dict::new();
    let mut i: usize = 0;
    assert(pieces.deep_view().take(0) =~= Seq::<Seq<char>>::empty());
    while i < n
        invariant
            i <= n,
            n == pieces.len(),
            pieces.deep_view() == split_on(raw@, ','),
            out.wf(),
            out@ == periods_of(pieces.deep_view().take(i as int)),
        decreases n - i,
    {
        let ghost all = pieces.deep_view();
        assert(all.take(i + 1).drop_last() =~= all.take(i as int));
        assert(all.take(i + 1).last() == pieces@[i as int]@);
        match read_period(pieces[i].as_str()) {
            Some((key, b)) => {
                let had: BoolSet = match out.get(key.as_str()) {
                    Some(s) => *s,
                    None => BoolSet { has_true: false, has_false: false },
                };
                let now: BoolSet = if b {
                    BoolSet { has_true: true, has_false: had.has_false }
                } else {
                    BoolSet { has_true: had.has_true, has_false: true }
                };
                out.insert(key, now);
            },
            None => {},
        }
        i += 1;
    }
    assert(pieces.deep_view().take(n as int) =~= pieces.deep_view());
    out
}

/// One entry of a run-duration map, as it was read.
pub enum ReadRunEntry {
    Skipped,
    BadDuration(String),
    BadStatus(String),
    Limit(String, RunLimit),
}

impl View for ReadRunEntry {
    type V = RunEntry;

    open spec fn view(&self) -> RunEntry {
        match self {
            ReadRunEntry::Skipped => RunEntry::Skipped,
            ReadRunEntry::BadDuration(s) => RunEntry::BadDuration(s@),
            ReadRunEntry::BadStatus(s) => RunEntry::BadStatus(s@),
            ReadRunEntry::Limit(p, l) => RunEntry::Limit(p@, *l),
        }
    }
}

/// Reads one entry of a run-duration map.
pub fn read_run_entry(entry: &str) -> (r: ReadRunEntry)
    ensures
        r@ == run_entry(entry@),
{
    let fields = split(entry, ':');
    if fields.len() != 3 {
        return ReadRunEntry::Skipped;
    }
    assert(fields.deep_view()[0] == fields@[0]@);
    assert(fields.deep_view()[1] == fields@[1]@);
    assert(fields.deep_view()[2] == fields@[2]@);
    let program = trim(fields[0].as_str());
    let span = trim(fields[1].as_str());
    let status = trim(fields[2].as_str());
    match parse_duration(span) {
        Err(e) => ReadRunEntry::BadDuration(e.value),
        Ok(d) => match string_to_num::<i32>(status) {
            Err(e) => ReadRunEntry::BadStatus(e.value),
            Ok(code) => ReadRunEntry::Limit(
                program.to_owned(),
                RunLimit { seconds: d.seconds(), status: code },
            ),
        },
    }
}

/// Once a front part of the entries fails, all of them fail, in the same way.
pub proof fn lemma_run_limits_stop(variable: Seq<char>, entries: Seq<Seq<char>>, k: int)
    requires
        0 <= k < entries.len(),
        run_limits_of(variable, entries.take(k + 1)) is Err,
    ensures
        run_limits_of(variable, entries) == run_limits_of(variable, entries.take(k + 1)),
    decreases entries.len() - k,
{
    if k + 1 == entries.len() {
        assert(entries.take(k + 1) =~= entries);
    } else {
        assert(entries.take(k + 2).drop_last() =~= entries.take(k + 1));
        lemma_run_limits_stop(variable, entries, k + 1);
    }
}

/// Reads the run-duration map of `variable`.
pub fn run_limits(variable: &str, raw: &str) -> (r: Result<Dict<RunLimit>, ConfigError>)
    ensures
        r is Ok <==> run_limits_of(variable@, split_on(raw@, ',')) is Ok,
        r matches Ok(d) ==> d.wf() && d@ == run_limits_of(variable@, split_on(raw@, ','))->Ok_0,
        r matches Err(e) ==> e@ == run_limits_of(variable@, split_on(raw@, ','))->Err_0,
{
    let pieces = split(raw, ',');
    let n: usize = pieces.len();
    let mut out: Dict<RunLimit> = Dict::new();
    let mut i: usize = 0;
    assert(pieces.deep_view().take(0) =~= Seq::<Seq<char>>::empty());
    while i < n
        invariant
            i <= n,
            n == pieces.len(),
            pieces.deep_view() == split_on(raw@, ','),
            out.wf(),
            run_limits_of(variable@, pieces.deep_view().take(i as int)) == Ok::<
                Map<Seq<char>, RunLimit>,
                Failure,
            >(out@),
        decreases n - i,
    {
        let ghost all = pieces.deep_view();
        assert(all.take(i + 1).drop_last() =~= all.take(i as int));
        assert(all.take(i + 1).last() == pieces@[i as int]@);
        match read_run_entry(pieces[i].as_str()) {
            ReadRunEntry::Skipped => {},
            ReadRunEntry::BadDuration(span) => {
                proof {
                    lemma_run_limits_stop(variable@, all, i as int);
                }
                return Err(
                    ConfigError::MalformedValue {
                        variable: variable.to_owned(),
                        value: span,
                        target: "duration".to_owned(),
                    },
                );
            },
            ReadRunEntry::BadStatus(status) => {
                proof {
                    lemma_run_limits_stop(variable@, all, i as int);
                }
                return Err(
                    ConfigError::MalformedValue {
                        variable: variable.to_owned(),
                        value: status,
                        target: "i32".to_owned(),
                    },
                );
            },
            ReadRunEntry::Limit(program, limit) => {
                let existing: Option<RunLimit> = match out.get(program.as_str()) {
                    Some(l) => Some(*l),
                    None => None,
                };
                match existing {
                    Some(l) => {
                        proof {
                            lemma_run_limits_stop(variable@, all, i as int);
                        }
                        return Err(
                            ConfigError::DuplicateDefinition {
                                variable: variable.to_owned(),
                                key: program,
                                existing: l,
                            },
                        );
                    },
                    None => {
                        out.insert(program, limit);
                    },
                }
            },
        }
        i += 1;
    }
    assert(pieces.deep_view().take(n as int) =~= pieces.deep_view());
    Ok(out)
}

} // verus!
