//! The ledger write policy: a batch write gets up to three submission
//! attempts with exponential backoff, one receipt poll after each accepted
//! submission, and a closed set of recoverable submission errors. The
//! machine only decides; the shell performs the sleeps, submissions and
//! receipt polls it is told to, and every submission it is handed carries
//! the machine's own rows unchanged.

use vstd::prelude::*;
use crate::errors::{Error, ErrorV};
use crate::text::{spec_contains_sub, contains_sub};

verus! {

/// The submission errors the ledger transport may surface transiently;
/// a message naming one of these is worth retrying.
pub open spec fn spec_recoverable(message: Seq<char>) -> bool {
    spec_contains_sub(message, "nonce too low"@)
        || spec_contains_sub(message, "gas price too low"@)
        || spec_contains_sub(message, "replacement transaction underpriced"@)
}

/// Decides `spec_recoverable` for a transport error message.
pub fn is_recoverable_submission_error(message: &str) -> (r: bool)
    ensures
        r == spec_recoverable(message@),
{
    contains_sub(message, "nonce too low") || contains_sub(message, "gas price too low")
        || contains_sub(message, "replacement transaction underpriced")
}

/// The milliseconds slept before submission attempt `attempt + 1`:
/// 500 doubled once per attempt already spent.
pub open spec fn spec_write_backoff(attempt: int) -> int
    decreases attempt,
{
    if attempt <= 1 {
        500
    } else {
        2 * spec_write_backoff(attempt - 1)
    }
}

/// Which batch operation a write is: object rows or ref rows. The two share
/// one policy but name themselves differently in their errors.
#[derive(Debug, Clone, Copy, PartialEq, Eq, Structural)]
pub enum WriteKind {
    Objects,
    Refs,
}

impl WriteKind {
    /// The message of a batch refused before any network work.
    pub open spec fn spec_invalid_message(self) -> Seq<char> {
        match self {
            WriteKind::Objects => "Invalid objects data: mismatched lengths"@,
            WriteKind::Refs => "Invalid refs data: mismatched lengths"@,
        }
    }

    /// The message of a write abandoned after three spent attempts.
    pub open spec fn spec_exhausted_message(self) -> Seq<char> {
        match self {
            WriteKind::Objects => "Failed to add objects after 3 retries"@,
            WriteKind::Refs => "Failed to add refs after 3 retries"@,
        }
    }

    /// The message of a write abandoned because its final submission failed
    /// with an error that is not worth retrying.
    pub open spec fn spec_fatal_message(self, transport: Seq<char>) -> Seq<char> {
        match self {
            WriteKind::Objects => "Failed to add objects: "@ + transport,
            WriteKind::Refs => "Failed to add refs: "@ + transport,
        }
    }
}

/// A batch write must pair a non-empty item list with a data list of the
/// same length; anything else is refused before any network call, under the
/// operation's own message.
pub fn validate_batch(kind: WriteKind, n_items: usize, n_data: usize) -> (r: Result<(), Error>)
    ensures
        r is Ok <==> (n_items > 0 && n_items == n_data),
        r is Err ==> (r->Err_0 matches Error::InvalidBatch { message }
            && message@ == kind.spec_invalid_message()),
{
    if n_items == 0 || n_items != n_data {
        let message = match kind {
            WriteKind::Objects => "Invalid objects data: mismatched lengths".to_owned(),
            WriteKind::Refs => "Invalid refs data: mismatched lengths".to_owned(),
        };
        Err(Error::InvalidBatch { message })
    } else {
        Ok(())
    }
}

/// What the ledger reported when the settlement receipt of an accepted
/// submission was polled once.
#[derive(Debug, Clone, Copy, PartialEq, Eq)]
pub enum ReceiptStatus {
    /// A receipt arrived and reports success.
    Confirmed,
    /// A receipt arrived and reports failure.
    Rejected,
    /// No receipt is available yet; the write is optimistically trusted.
    Missing,
    /// The receipt could not be polled at all.
    CheckFailed,
}

/// What the shell observed while executing the machine's last command.
#[derive(Debug)]
pub enum WriteEvent {
    /// The submission was accepted by the transport.
    SubmittedOk,
    /// The submission failed; the message is the transport's error text.
    SubmittedErr { message: String },
    /// The result of the single receipt poll.
    Receipt { status: ReceiptStatus },
}

/// The mathematical shadow of a [`WriteEvent`].
pub enum WriteEventV {
    SubmittedOk,
    SubmittedErr { message: Seq<char> },
    Receipt { status: ReceiptStatus },
}

impl View for WriteEvent {
    type V = WriteEventV;

    open spec fn view(&self) -> WriteEventV {
        match self {
            WriteEvent::SubmittedOk => WriteEventV::SubmittedOk,
            WriteEvent::SubmittedErr { message } => WriteEventV::SubmittedErr {
                message: message@,
            },
            WriteEvent::Receipt { status } => WriteEventV::Receipt { status: *status },
        }
    }
}

/// What the shell must do next. A submission command carries the rows to
/// submit, and they are the machine's rows byte-for-byte on every attempt.
#[derive(Debug)]
pub enum WriteCommand {
    /// Submit exactly these rows as one ledger transaction.
    Submit { items: Vec<String>, data: Vec<Vec<u8>> },
    /// Sleep the given milliseconds, then submit exactly these rows again.
    SleepThenSubmit { millis: u64, items: Vec<String>, data: Vec<Vec<u8>> },
    /// Poll the settlement receipt of the accepted submission once.
    PollReceipt,
    /// The write is done; report success to the caller.
    Succeed,
    /// The write is over; surface this error.
    Fail { error: Error },
}

/// The mathematical shadow of a [`WriteCommand`].
pub enum WriteCommandV {
    Submit { items: Seq<String>, data: Seq<Vec<u8>> },
    SleepThenSubmit { millis: int, items: Seq<String>, data: Seq<Vec<u8>> },
    PollReceipt,
    Succeed,
    Fail { error: ErrorV },
}

impl View for WriteCommand {
    type V = WriteCommandV;

    open spec fn view(&self) -> WriteCommandV {
        match self {
            WriteCommand::Submit { items, data } => WriteCommandV::Submit {
                items: items@,
                data: data@,
            },
            WriteCommand::SleepThenSubmit { millis, items, data } => {
                WriteCommandV::SleepThenSubmit {
                    millis: *millis as int,
                    items: items@,
                    data: data@,
                }
            },
            WriteCommand::PollReceipt => WriteCommandV::PollReceipt,
            WriteCommand::Succeed => WriteCommandV::Succeed,
            WriteCommand::Fail { error } => WriteCommandV::Fail { error: error@ },
        }
    }
}

/// A field-by-field copy of the item column.
fn clone_items(v: &Vec<String>) -> (r: Vec<String>)
    ensures
        r@ == v@,
{
    let mut out: Vec<String> = Vec::new();
    let mut i: usize = 0;
    while i < v.len()
        invariant
            i <= v@.len(),
            out@ =~= v@.take(i as int),
        decreases v@.len() - i,
    {
        out.push(v[i].clone());
        proof {
            assert(v@.take(i + 1) =~= v@.take(i as int).push(v@[i as int]));
        }
        i = i + 1;
    }
    proof {
        assert(v@.take(v@.len() as int) =~= v@);
    }
    out
}

/// A byte-for-byte copy of the data column.
fn clone_rows(v: &Vec<Vec<u8>>) -> (r: Vec<Vec<u8>>)
    ensures
        r@.len() == v@.len(),
        forall|i: int| 0 <= i < v@.len() ==> (#[trigger] r@[i])@ == v@[i]@,
{
    let mut out: Vec<Vec<u8>> = Vec::new();
    let mut i: usize = 0;
    while i < v.len()
        invariant
            i <= v@.len(),
            out@.len() == i,
            forall|k: int| 0 <= k < i ==> (#[trigger] out@[k])@ == v@[k]@,
        decreases v@.len() - i,
    {
        let row = &v[i];
        let mut copy: Vec<u8> = Vec::new();
        let mut j: usize = 0;
        while j < row.len()
            invariant
                j <= row@.len(),
                copy@ =~= row@.take(j as int),
            decreases row@.len() - j,
        {
            copy.push(row[j]);
            proof {
                assert(row@.take(j + 1) =~= row@.take(j as int).push(row@[j as int]));
            }
            j = j + 1;
        }
        proof {
            assert(row@.take(row@.len() as int) =~= row@);
        }
        out.push(copy);
        i = i + 1;
    }
    out
}

/// The retry state of one batch write: which operation it is, the rows that
/// every submission must carry unchanged, and which attempt is in flight,
/// out of three at most.
#[derive(Debug)]
pub struct WriteMachine {
    pub kind: WriteKind,
    pub items: Vec<String>,
    pub data: Vec<Vec<u8>>,
    pub attempt: u8,
}

/// The data column's rows match pointwise.
pub open spec fn spec_same_rows(a: Seq<Vec<u8>>, b: Seq<Vec<u8>>) -> bool {
    a.len() == b.len() && forall|i: int| 0 <= i < a.len() ==> (#[trigger] a[i])@ == b[i]@
}

impl WriteMachine {
    /// The attempt counter stays within the three allowed attempts.
    pub open spec fn wf(self) -> bool {
        1 <= self.attempt <= 3
    }

    /// The first command of a batch write: empty or unequal batches are
    /// refused before any network work; otherwise the rows go out at once.
    pub open spec fn spec_start_command(
        kind: WriteKind,
        items: Seq<String>,
        data: Seq<Vec<u8>>,
    ) -> WriteCommandV {
        if items.len() > 0 && items.len() == data.len() {
            WriteCommandV::Submit { items, data }
        } else {
            WriteCommandV::Fail {
                error: ErrorV::InvalidBatch { message: kind.spec_invalid_message() },
            }
        }
    }

    pub fn start(kind: WriteKind, items: Vec<String>, data: Vec<Vec<u8>>) -> (r: (
        WriteMachine,
        WriteCommand,
    ))
        ensures
            r.0.kind == kind,
            r.0.attempt == 1,
            r.0.items@ == items@,
            spec_same_rows(r.0.data@, data@),
            r.0.wf(),
            ({
                let cmd = Self::spec_start_command(kind, items@, data@);
                match cmd {
                    WriteCommandV::Submit { items: ci, data: cd } => (r.1@ matches
                        WriteCommandV::Submit { items: i2, data: d2 } && i2 == ci
                        && spec_same_rows(d2, cd)),
                    _ => r.1@ == cmd,
                }
            }),
    {
        match validate_batch(kind, items.len(), data.len()) {
            Ok(()) => {
                let sent_items = clone_items(&items);
                let sent_data = clone_rows(&data);
                (
                    WriteMachine { kind, items, data, attempt: 1 },
                    WriteCommand::Submit { items: sent_items, data: sent_data },
                )
            },
            Err(e) => (
                WriteMachine { kind, items, data, attempt: 1 },
                WriteCommand::Fail { error: e },
            ),
        }
    }

    /// The transition relation of the write policy. A failed submission or a
    /// rejected / unpollable receipt spends the attempt; spent attempts back
    /// off before resubmitting the unchanged rows; a confirmed or
    /// still-missing receipt ends in success; the third spent attempt is
    /// fatal, under the exhaustion message when its error was recoverable
    /// and under the transport's own words when it was not.
    pub open spec fn spec_step(self, ev: WriteEventV) -> (WriteMachine, WriteCommandV) {
        match ev {
            WriteEventV::SubmittedOk => (self, WriteCommandV::PollReceipt),
            WriteEventV::SubmittedErr { message } => {
                if self.attempt < 3 {
                    (
                        WriteMachine { attempt: (self.attempt + 1) as u8, ..self },
                        WriteCommandV::SleepThenSubmit {
                            millis: spec_write_backoff(self.attempt as int),
                            items: self.items@,
                            data: self.data@,
                        },
                    )
                } else if spec_recoverable(message) {
                    (
                        self,
                        WriteCommandV::Fail {
                            error: ErrorV::LedgerWriteFailed {
                                message: self.kind.spec_exhausted_message(),
                            },
                        },
                    )
                } else {
                    (
                        self,
                        WriteCommandV::Fail {
                            error: ErrorV::LedgerWriteFailed {
                                message: self.kind.spec_fatal_message(message),
                            },
                        },
                    )
                }
            },
            WriteEventV::Receipt { status } => match status {
                ReceiptStatus::Confirmed => (self, WriteCommandV::Succeed),
                ReceiptStatus::Missing => (self, WriteCommandV::Succeed),
                _ => {
                    if self.attempt < 3 {
                        (
                            WriteMachine { attempt: (self.attempt + 1) as u8, ..self },
                            WriteCommandV::SleepThenSubmit {
                                millis: spec_write_backoff(self.attempt as int),
                                items: self.items@,
                                data: self.data@,
                            },
                        )
                    } else {
                        (
                            self,
                            WriteCommandV::Fail {
                                error: ErrorV::LedgerWriteFailed {
                                    message: self.kind.spec_exhausted_message(),
                                },
                            },
                        )
                    }
                },
            },
        }
    }

    pub fn step(self, ev: WriteEvent) -> (r: (WriteMachine, WriteCommand))
        requires
            self.wf(),
        ensures
            ({
                let (m, cmd) = self.spec_step(ev@);
                &&& r.0.kind == m.kind
                &&& r.0.attempt == m.attempt
                &&& r.0.items@ == m.items@
                &&& r.0.data@ == m.data@
                &&& match cmd {
                    WriteCommandV::SleepThenSubmit { millis, items, data } => (r.1@ matches
                        WriteCommandV::SleepThenSubmit { millis: m2, items: i2, data: d2 }
                        && m2 == millis && i2 == items && spec_same_rows(d2, data)),
                    _ => r.1@ == cmd,
                }
            }),
            r.0.wf(),
    {
        match ev {
            WriteEvent::SubmittedOk => (self, WriteCommand::PollReceipt),
            WriteEvent::SubmittedErr { message } => {
                if self.attempt < 3 {
                    let millis: u64 = if self.attempt == 1 { 500 } else { 1000 };
                    proof {
                        assert(spec_write_backoff(1) == 500);
                        assert(spec_write_backoff(2) == 1000);
                    }
                    let items = clone_items(&self.items);
                    let data = clone_rows(&self.data);
                    let attempt = self.attempt + 1;
                    (
                        WriteMachine { attempt, ..self },
                        WriteCommand::SleepThenSubmit { millis, items, data },
                    )
                } else if is_recoverable_submission_error(message.as_str()) {
                    let error = self.exhausted_error();
                    (self, WriteCommand::Fail { error })
                } else {
                    let mut text = match self.kind {
                        WriteKind::Objects => "Failed to add objects: ".to_owned(),
                        WriteKind::Refs => "Failed to add refs: ".to_owned(),
                    };
                    text.append(message.as_str());
                    (self, WriteCommand::Fail {
                        error: Error::LedgerWriteFailed { message: text },
                    })
                }
            },
            WriteEvent::Receipt { status } => match status {
                ReceiptStatus::Confirmed => (self, WriteCommand::Succeed),
                ReceiptStatus::Missing => (self, WriteCommand::Succeed),
                _ => {
                    if self.attempt < 3 {
                        let millis: u64 = if self.attempt == 1 { 500 } else { 1000 };
                        proof {
                            assert(spec_write_backoff(1) == 500);
                            assert(spec_write_backoff(2) == 1000);
                        }
                        let items = clone_items(&self.items);
                        let data = clone_rows(&self.data);
                        let attempt = self.attempt + 1;
                        (
                            WriteMachine { attempt, ..self },
                            WriteCommand::SleepThenSubmit { millis, items, data },
                        )
                    } else {
                        let error = self.exhausted_error();
                        (self, WriteCommand::Fail { error })
                    }
                },
            },
        }
    }

    /// The exhaustion error of this write's operation.
    fn exhausted_error(&self) -> (r: Error)
        ensures
            r@ matches ErrorV::LedgerWriteFailed { message }
                && message == self.kind.spec_exhausted_message(),
    {
        let message = match self.kind {
            WriteKind::Objects => "Failed to add objects after 3 retries".to_owned(),
            WriteKind::Refs => "Failed to add refs after 3 retries".to_owned(),
        };
        Error::LedgerWriteFailed { message }
    }
}

/// A write whose first two submissions fail and whose third is accepted and
/// confirmed reports success to the caller: the retry boundary sits at
/// exactly three attempts, with backoffs of 500 then 1000 milliseconds, and
/// every submission carries the same rows.
pub proof fn lemma_write_succeeds_on_third_attempt(
    kind: WriteKind,
    items: Vec<String>,
    data: Vec<Vec<u8>>,
    m1: Seq<char>,
    m2: Seq<char>,
)
    requires
        items@.len() > 0 && items@.len() == data@.len(),
        spec_recoverable(m1),
        spec_recoverable(m2),
    ensures
        ({
            let c0 = WriteMachine::spec_start_command(kind, items@, data@);
            let s0 = WriteMachine { kind, items, data, attempt: 1 };
            let (s1, c1) = s0.spec_step(WriteEventV::SubmittedErr { message: m1 });
            let (s2, c2) = s1.spec_step(WriteEventV::SubmittedErr { message: m2 });
            let (s3, c3) = s2.spec_step(WriteEventV::SubmittedOk);
            let (s4, c4) = s3.spec_step(
                WriteEventV::Receipt { status: ReceiptStatus::Confirmed },
            );
            &&& c0 == (WriteCommandV::Submit { items: items@, data: data@ })
            &&& c1 == (WriteCommandV::SleepThenSubmit {
                millis: 500int,
                items: items@,
                data: data@,
            })
            &&& c2 == (WriteCommandV::SleepThenSubmit {
                millis: 1000int,
                items: items@,
                data: data@,
            })
            &&& s2.attempt == 3
            &&& c3 == WriteCommandV::PollReceipt
            &&& c4 == WriteCommandV::Succeed
        }),
{
}

/// Three spent attempts end in `LedgerWriteFailed`, never a fourth attempt:
/// a recoverable final error renders the operation's exhaustion message, any
/// other final error carries the transport's words.
pub proof fn lemma_write_exhausts_after_three_attempts(
    kind: WriteKind,
    items: Vec<String>,
    data: Vec<Vec<u8>>,
    m1: Seq<char>,
    m2: Seq<char>,
    m3: Seq<char>,
)
    requires
        items@.len() > 0 && items@.len() == data@.len(),
    ensures
        ({
            let s0 = WriteMachine { kind, items, data, attempt: 1 };
            let (s1, c1) = s0.spec_step(WriteEventV::SubmittedErr { message: m1 });
            let (s2, c2) = s1.spec_step(WriteEventV::SubmittedErr { message: m2 });
            let (s3, c3) = s2.spec_step(WriteEventV::SubmittedErr { message: m3 });
            &&& s3 == s2
            &&& c3 matches WriteCommandV::Fail { error }
                && error matches ErrorV::LedgerWriteFailed { message }
                && message == (if spec_recoverable(m3) {
                    kind.spec_exhausted_message()
                } else {
                    kind.spec_fatal_message(m3)
                })
        }),
{
}

} // verus!
