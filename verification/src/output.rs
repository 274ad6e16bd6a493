use vstd::prelude::*;

verus! {

// ---------------------------------------------------------------------------
// The diagnostic aggregator's bookkeeping.
//
// Grammar rules emit one message per notable event, each naming the source
// file it belongs to. The functions here group those messages by file in
// first-seen order, and tally files, errors and warnings for the run's
// summary line. Receiving the messages and printing the report are the
// caller's business; everything that decides what the report says is here.
// ---------------------------------------------------------------------------

/// One event reported for a file: nothing of note (the file was processed
/// and is only to be counted), an error, or a warning.
#[derive(Debug, Clone, PartialEq)]
pub enum Output {
    /// only to notify the output processing about a file that was processed
    /// (does not show in the report)
    Nothing,
    Error(Vec<u8>),
    Warning(Vec<u8>),
}

/// One message to the aggregator: the path of the file it concerns, as raw
/// bytes, and the event.
#[derive(Debug, Clone, PartialEq)]
pub struct OutputMessage {
    pub file: Vec<u8>,
    pub output: Output,
}

/// The events of one file, gathered for display: the file's path and its
/// notable outputs in arrival order.
#[derive(Debug, PartialEq)]
pub struct FileReport {
    pub file: Vec<u8>,
    pub outputs: Vec<Output>,
}

/// Whether an event shows in the report.
pub open spec fn is_notable(o: Output) -> bool {
    !(o is Nothing)
}

/// The distinct files named by `msgs`, in order of first occurrence.
pub open spec fn distinct_files(msgs: Seq<OutputMessage>) -> Seq<Seq<u8>>
    decreases msgs.len(),
{
    if msgs.len() == 0 {
        Seq::empty()
    } else {
        let rest = distinct_files(msgs.drop_last());
        let f = msgs.last().file@;
        if rest.contains(f) {
            rest
        } else {
            rest.push(f)
        }
    }
}

/// The notable outputs of `msgs` that name the file `f`, in arrival order.
pub open spec fn notable_for(msgs: Seq<OutputMessage>, f: Seq<u8>) -> Seq<Output>
    decreases msgs.len(),
{
    if msgs.len() == 0 {
        Seq::empty()
    } else {
        let rest = notable_for(msgs.drop_last(), f);
        let m = msgs.last();
        if m.file@ == f && is_notable(m.output) {
            rest.push(m.output)
        } else {
            rest
        }
    }
}

/// The number of error events among `msgs`.
pub open spec fn count_errors(msgs: Seq<OutputMessage>) -> int
    decreases msgs.len(),
{
    if msgs.len() == 0 {
        0
    } else {
        count_errors(msgs.drop_last()) + if msgs.last().output is Error {
            1int
        } else {
            0int
        }
    }
}

/// The number of warning events among `msgs`.
pub open spec fn count_warnings(msgs: Seq<OutputMessage>) -> int
    decreases msgs.len(),
{
    if msgs.len() == 0 {
        0
    } else {
        count_warnings(msgs.drop_last()) + if msgs.last().output is Warning {
            1int
        } else {
            0int
        }
    }
}

/// Whatever the earlier messages listed, the later ones still list.
proof fn lemma_distinct_files_mono(msgs: Seq<OutputMessage>, f: Seq<u8>)
    requires
        msgs.len() > 0,
        distinct_files(msgs.drop_last()).contains(f),
    ensures
        distinct_files(msgs).contains(f),
{
    let rest = distinct_files(msgs.drop_last());
    let j = choose|j: int| 0 <= j < rest.len() && rest[j] == f;
    assert(distinct_files(msgs)[j] == f);
}

/// Every file named by some message appears in the distinct-file list.
proof fn lemma_distinct_files_covers(msgs: Seq<OutputMessage>, j: int)
    requires
        0 <= j < msgs.len(),
    ensures
        distinct_files(msgs).contains(msgs[j].file@),
    decreases msgs.len(),
{
    let rest = distinct_files(msgs.drop_last());
    let f = msgs.last().file@;
    if j == msgs.len() - 1 {
        if rest.contains(f) {
        } else {
            assert(distinct_files(msgs)[rest.len() as int] == f);
        }
    } else {
        lemma_distinct_files_covers(msgs.drop_last(), j);
        assert(msgs.drop_last()[j] == msgs[j]);
        lemma_distinct_files_mono(msgs, msgs[j].file@);
    }
}

/// The distinct-file list holds each file once.
proof fn lemma_distinct_files_unique(msgs: Seq<OutputMessage>, p: int, q: int)
    requires
        0 <= p < q < distinct_files(msgs).len(),
    ensures
        distinct_files(msgs)[p] != distinct_files(msgs)[q],
    decreases msgs.len(),
{
    if msgs.len() > 0 {
        let rest = distinct_files(msgs.drop_last());
        let f = msgs.last().file@;
        if q < rest.len() {
            lemma_distinct_files_unique(msgs.drop_last(), p, q);
        } else {
            // q is the newly pushed file, which rest does not contain.
            assert(!rest.contains(f));
            assert(rest[p] == distinct_files(msgs)[p]);
            if distinct_files(msgs)[p] == f {
                assert(rest.contains(f));
            }
        }
    }
}

/// A file the distinct-file list does not name has no notable outputs.
proof fn lemma_notable_for_absent(msgs: Seq<OutputMessage>, f: Seq<u8>)
    requires
        !distinct_files(msgs).contains(f),
    ensures
        notable_for(msgs, f) == Seq::<Output>::empty(),
    decreases msgs.len(),
{
    if msgs.len() > 0 {
        lemma_distinct_files_covers(msgs, msgs.len() - 1);
        assert(msgs.last().file@ != f);
        if distinct_files(msgs.drop_last()).contains(f) {
            lemma_distinct_files_mono(msgs, f);
        }
        lemma_notable_for_absent(msgs.drop_last(), f);
    }
}

/// Whether two byte strings hold the same bytes.
pub fn bytes_eq(a: &Vec<u8>, b: &Vec<u8>) -> (r: bool)
    ensures
        r <==> a@ == b@,
{
    if a.len() != b.len() {
        return false;
    }
    let mut i: usize = 0;
    while i < a.len()
        invariant
            i <= a.len(),
            a@.len() == b@.len(),
            forall|j: int| 0 <= j < i ==> a@[j] == b@[j],
        decreases a.len() - i,
    {
        if a[i] != b[i] {
            return false;
        }
        i = i + 1;
    }
    proof {
        assert(a@ =~= b@);
    }
    true
}

/// A copy of a byte string.
pub fn clone_bytes(v: &Vec<u8>) -> (r: Vec<u8>)
    ensures
        r@ == v@,
{
    let mut r: Vec<u8> = Vec::new();
    crate::emit::push_all(&mut r, v);
    proof {
        assert(r@ =~= v@);
    }
    r
}

/// The index of `file` in a list of file names, if present.
fn find_bytes(seen: &Vec<Vec<u8>>, file: &Vec<u8>) -> (r: Option<usize>)
    ensures
        match r {
            Some(i) => 0 <= i < seen@.len() && seen@[i as int]@ == file@,
            None => forall|j: int| 0 <= j < seen@.len() ==> seen@[j]@ != file@,
        },
{
    let mut i: usize = 0;
    while i < seen.len()
        invariant
            i <= seen.len(),
            forall|j: int| 0 <= j < i ==> seen@[j]@ != file@,
        decreases seen.len() - i,
    {
        if bytes_eq(&seen[i], file) {
            return Some(i);
        }
        i = i + 1;
    }
    None
}

/// The index of the report for `file`, if one exists.
fn find_report(reports: &Vec<FileReport>, file: &Vec<u8>) -> (r: Option<usize>)
    ensures
        match r {
            Some(i) => 0 <= i < reports@.len() && reports@[i as int].file@ == file@,
            None => forall|j: int| 0 <= j < reports@.len() ==> reports@[j].file@ != file@,
        },
{
    let mut i: usize = 0;
    while i < reports.len()
        invariant
            i <= reports.len(),
            forall|j: int| 0 <= j < i ==> reports@[j].file@ != file@,
        decreases reports.len() - i,
    {
        if bytes_eq(&reports[i].file, file) {
            return Some(i);
        }
        i = i + 1;
    }
    None
}

/// Groups the run's messages by file, in order of first occurrence. A file
/// whose messages are all `None` still gets a (then empty) report, so that
/// it is counted as scanned; notable outputs are kept in arrival order.
#[verifier::loop_isolation(false)]
#[verifier::rlimit(60)]
pub fn group_messages(messages: Vec<OutputMessage>) -> (reports: Vec<FileReport>)
    ensures
        reports@.len() == distinct_files(messages@).len(),
        forall|i: int|
            0 <= i < reports@.len() ==> reports@[i].file@ == distinct_files(messages@)[i]
                && reports@[i].outputs@ == notable_for(messages@, distinct_files(messages@)[i]),
{
    let ghost orig = messages@;
    let mut remaining = messages;
    let total = remaining.len();
    let mut reports: Vec<FileReport> = Vec::new();
    let mut k: usize = 0;
    while remaining.len() > 0
        invariant
            orig.len() == total,
            k + remaining@.len() == orig.len(),
            remaining@ =~= orig.subrange(k as int, orig.len() as int),
            reports@.len() == distinct_files(orig.subrange(0, k as int)).len(),
            forall|i: int|
                0 <= i < reports@.len() ==> reports@[i].file@ == distinct_files(
                    orig.subrange(0, k as int),
                )[i] && reports@[i].outputs@ == notable_for(
                    orig.subrange(0, k as int),
                    distinct_files(orig.subrange(0, k as int))[i],
                ),
        decreases remaining@.len(),
    {
        let m = remaining.remove(0);
        let ghost prefix = orig.subrange(0, k as int);
        let ghost longer = orig.subrange(0, k + 1);
        proof {
            assert(m == orig[k as int]);
            assert(remaining@ =~= orig.subrange(k + 1, orig.len() as int));
            assert(longer.drop_last() =~= prefix);
            assert(longer.last() == m);
        }
        let notable = match &m.output {
            Output::Nothing => false,
            _ => true,
        };
        match find_report(&reports, &m.file) {
            Some(i) => {
                proof {
                    assert(distinct_files(prefix)[i as int] == m.file@);
                    assert(distinct_files(prefix).contains(m.file@));
                    assert(distinct_files(longer) =~= distinct_files(prefix));
                }
                if notable {
                    let mut entry = reports.remove(i);
                    entry.outputs.push(m.output);
                    reports.insert(i, entry);
                    proof {
                        assert forall|j: int|
                            0 <= j < reports@.len() && j != i implies reports@[j].file@
                            != m.file@ by {
                            if reports@[j].file@ == m.file@ {
                                if j < i {
                                    lemma_distinct_files_unique(prefix, j, i as int);
                                } else {
                                    lemma_distinct_files_unique(prefix, i as int, j);
                                }
                            }
                        }
                    }
                }
            },
            None => {
                proof {
                    if distinct_files(prefix).contains(m.file@) {
                        let j = choose|j: int|
                            0 <= j < distinct_files(prefix).len() && distinct_files(prefix)[j]
                                == m.file@;
                        assert(reports@[j].file@ == m.file@);
                    }
                    assert(!distinct_files(prefix).contains(m.file@));
                    lemma_notable_for_absent(prefix, m.file@);
                }
                let OutputMessage { file, output } = m;
                let mut outputs: Vec<Output> = Vec::new();
                if notable {
                    outputs.push(output);
                }
                reports.push(FileReport { file, outputs });
            },
        }
        k = k + 1;
    }
    proof {
        assert(orig.subrange(0, orig.len() as int) =~= orig);
    }
    reports
}

/// Tallies a run: how many distinct files were scanned, and how many error
/// and warning events arrived, whichever files they named.
#[verifier::loop_isolation(false)]
pub fn summarize(messages: &Vec<OutputMessage>) -> (r: (usize, usize, usize))
    ensures
        r.0 == distinct_files(messages@).len(),
        r.1 == count_errors(messages@),
        r.2 == count_warnings(messages@),
{
    let ghost orig = messages@;
    let mut seen: Vec<Vec<u8>> = Vec::new();
    let mut error_count: usize = 0;
    let mut warning_count: usize = 0;
    let mut k: usize = 0;
    while k < messages.len()
        invariant
            k <= messages.len(),
            seen@.len() == distinct_files(orig.subrange(0, k as int)).len(),
            forall|i: int|
                0 <= i < seen@.len() ==> seen@[i]@ == distinct_files(orig.subrange(0, k as int))[i],
            error_count == count_errors(orig.subrange(0, k as int)),
            warning_count == count_warnings(orig.subrange(0, k as int)),
            error_count + warning_count <= k,
        decreases messages.len() - k,
    {
        let ghost prefix = orig.subrange(0, k as int);
        let ghost longer = orig.subrange(0, k + 1);
        proof {
            assert(longer.drop_last() =~= prefix);
            assert(longer.last() == orig[k as int]);
        }
        let m = &messages[k];

        match find_bytes(&seen, &m.file) {
            Some(i) => {
                proof {
                    assert(distinct_files(prefix)[i as int] == m.file@);
                    assert(distinct_files(prefix).contains(m.file@));
                }
            },
            None => {
                proof {
                    if distinct_files(prefix).contains(m.file@) {
                        let j = choose|j: int|
                            0 <= j < distinct_files(prefix).len() && distinct_files(prefix)[j]
                                == m.file@;
                        assert(seen@[j]@ == m.file@);
                    }
                }
                seen.push(clone_bytes(&m.file));
            },
        }

        match &m.output {
            Output::Nothing => {},
            Output::Error(_) => {
                error_count = error_count + 1;
            },
            Output::Warning(_) => {
                warning_count = warning_count + 1;
            },
        }
        k = k + 1;
    }
    proof {
        assert(orig.subrange(0, orig.len() as int) =~= orig);
    }
    (seen.len(), error_count, warning_count)
}

/// The process-level outcome of a run: nonzero exactly when at least one
/// file was scanned and at least one error or warning arrived. A run that
/// scanned files cleanly, and a run that scanned no files at all, both
/// yield zero.
pub fn exit_code(file_count: usize, error_count: usize, warning_count: usize) -> (code: i32)
    ensures
        code == (if file_count > 0 && (error_count > 0 || warning_count > 0) {
            1int
        } else {
            0int
        }),
{
    if file_count > 0 && (error_count > 0 || warning_count > 0) {
        1
    } else {
        0
    }
}

} // verus!
