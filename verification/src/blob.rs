//! The blob store policies. An upload gets three attempts with exponential
//! backoff and its payload is used byte-for-byte on every attempt; a
//! download tries three retrieval strategies in strict order within each of
//! three rounds. The machines decide; the shell performs the HTTP calls and
//! sleeps it is told to.

use vstd::prelude::*;
use crate::errors::{Error, ErrorV};

verus! {

/// The milliseconds slept before blob attempt (or round) `n + 1`:
/// 1000 doubled once per attempt already spent.
pub open spec fn spec_blob_backoff(n: int) -> int
    decreases n,
{
    if n <= 1 {
        1000
    } else {
        2 * spec_blob_backoff(n - 1)
    }
}

// ---------------------------------------------------------------------------
// Upload
// ---------------------------------------------------------------------------

/// The retry state of one blob upload: the payload that every attempt must
/// post unchanged, and which attempt is in flight, out of three at most.
#[derive(Debug)]
pub struct UploadMachine {
    pub payload: Vec<u8>,
    pub attempt: u8,
}

/// What the shell observed while executing the machine's last command: the
/// interpreted store response, or a transport failure.
#[derive(Debug)]
pub enum UploadEvent {
    /// The store accepted the upload and returned this content id.
    Accepted { cid: String },
    /// The store refused the upload, or its response was unusable.
    Refused { message: String },
}

/// The mathematical shadow of an [`UploadEvent`].
pub enum UploadEventV {
    Accepted { cid: Seq<char> },
    Refused { message: Seq<char> },
}

impl View for UploadEvent {
    type V = UploadEventV;

    open spec fn view(&self) -> UploadEventV {
        match self {
            UploadEvent::Accepted { cid } => UploadEventV::Accepted { cid: cid@ },
            UploadEvent::Refused { message } => UploadEventV::Refused { message: message@ },
        }
    }
}

/// What the shell must do next for an upload.
#[derive(Debug)]
pub enum UploadCommand {
    /// Post exactly these bytes to the store's add endpoint.
    Post { content: Vec<u8> },
    /// Sleep the given milliseconds, then post exactly these bytes again.
    SleepThenPost { millis: u64, content: Vec<u8> },
    /// The upload is done: this is the payload's content id.
    Succeed { cid: String },
    /// The upload is over; surface this error.
    Fail { error: Error },
}

/// The mathematical shadow of an [`UploadCommand`].
pub enum UploadCommandV {
    Post { content: Seq<u8> },
    SleepThenPost { millis: int, content: Seq<u8> },
    Succeed { cid: Seq<char> },
    Fail { error: ErrorV },
}

impl View for UploadCommand {
    type V = UploadCommandV;

    open spec fn view(&self) -> UploadCommandV {
        match self {
            UploadCommand::Post { content } => UploadCommandV::Post { content: content@ },
            UploadCommand::SleepThenPost { millis, content } => UploadCommandV::SleepThenPost {
                millis: *millis as int,
                content: content@,
            },
            UploadCommand::Succeed { cid } => UploadCommandV::Succeed { cid: cid@ },
            UploadCommand::Fail { error } => UploadCommandV::Fail { error: error@ },
        }
    }
}

/// The message of an upload abandoned after its third refused attempt.
pub open spec fn spec_upload_exhausted_message(last: Seq<char>) -> Seq<char> {
    "Failed to upload file to IPFS after 3 attempts: "@ + last
}

impl UploadMachine {
    /// The attempt counter stays within the three allowed attempts.
    pub open spec fn wf(self) -> bool {
        1 <= self.attempt <= 3
    }

    /// Starting an upload posts the payload at once, byte-for-byte.
    pub fn start(payload: Vec<u8>) -> (r: (UploadMachine, UploadCommand))
        ensures
            r.0.payload@ =~= payload@,
            r.0.attempt == 1,
            r.0.wf(),
            r.1@ matches UploadCommandV::Post { content } && content =~= payload@,
    {
        let posted = clone_bytes(&payload);
        (UploadMachine { payload, attempt: 1 }, UploadCommand::Post { content: posted })
    }

    /// The transition relation of the upload policy: an accepted response
    /// ends in its content id; a refusal spends the attempt, backs off and
    /// posts the unchanged payload again; the third refusal is fatal.
    pub open spec fn spec_step(self, ev: UploadEventV) -> (UploadMachine, UploadCommandV) {
        match ev {
            UploadEventV::Accepted { cid } => (self, UploadCommandV::Succeed { cid }),
            UploadEventV::Refused { message } => {
                if self.attempt < 3 {
                    (
                        UploadMachine { payload: self.payload, attempt: (self.attempt + 1) as u8 },
                        UploadCommandV::SleepThenPost {
                            millis: spec_blob_backoff(self.attempt as int),
                            content: self.payload@,
                        },
                    )
                } else {
                    (
                        self,
                        UploadCommandV::Fail {
                            error: ErrorV::UploadFailed {
                                message: spec_upload_exhausted_message(message),
                            },
                        },
                    )
                }
            },
        }
    }

    pub fn step(self, ev: UploadEvent) -> (r: (UploadMachine, UploadCommand))
        requires
            self.wf(),
        ensures
            r.0.payload@ == self.spec_step(ev@).0.payload@,
            r.0.attempt == self.spec_step(ev@).0.attempt,
            r.1@ == self.spec_step(ev@).1,
            r.0.wf(),
    {
        match ev {
            UploadEvent::Accepted { cid } => (self, UploadCommand::Succeed { cid }),
            UploadEvent::Refused { message } => {
                if self.attempt < 3 {
                    let millis: u64 = if self.attempt == 1 { 1000 } else { 2000 };
                    proof {
                        assert(spec_blob_backoff(1) == 1000);
                        assert(spec_blob_backoff(2) == 2000);
                    }
                    let content = clone_bytes(&self.payload);
                    let attempt = self.attempt + 1;
                    (
                        UploadMachine { payload: self.payload, attempt },
                        UploadCommand::SleepThenPost { millis, content },
                    )
                } else {
                    let mut text = "Failed to upload file to IPFS after 3 attempts: ".to_owned();
                    text.append(message.as_str());
                    (self, UploadCommand::Fail { error: Error::UploadFailed { message: text } })
                }
            },
        }
    }
}

/// A byte-for-byte copy of a payload.
fn clone_bytes(v: &Vec<u8>) -> (r: Vec<u8>)
    ensures
        r@ =~= v@,
{
    let mut out: Vec<u8> = Vec::new();
    let mut i: usize = 0;
    while i < v.len()
        invariant
            i <= v@.len(),
            out@ =~= v@.take(i as int),
        decreases v@.len() - i,
    {
        out.push(v[i]);
        proof {
            assert(v@.take(i + 1) =~= v@.take(i as int).push(v@[i as int]));
        }
        i = i + 1;
    }
    proof {
        assert(v@.take(v@.len() as int) =~= v@);
    }
    out
}

// ---------------------------------------------------------------------------
// Download
// ---------------------------------------------------------------------------

/// One retrieval strategy, in the strict order they are tried.
#[derive(Debug, Clone, Copy, PartialEq, Eq)]
pub enum Source {
    /// A direct block fetch from the store's local API.
    Block,
    /// The higher-level cat fetch from the same API.
    Cat,
    /// The configured public gateway.
    Gateway,
}

/// The retry state of one blob download: which round (of three at most) and
/// which strategy is in flight, and whether a gateway is configured at all.
#[derive(Debug, Clone, PartialEq, Eq)]
pub struct DownloadMachine {
    pub round: u8,
    pub source: Source,
    pub gateway: bool,
}

/// What the shell observed for the strategy it was told to try.
#[derive(Debug)]
pub enum DownloadEvent {
    /// The strategy returned success with these bytes.
    Delivered { content: Vec<u8> },
    /// The strategy returned non-success or failed outright.
    Miss,
}

/// The mathematical shadow of a [`DownloadEvent`].
pub enum DownloadEventV {
    Delivered { content: Seq<u8> },
    Miss,
}

impl View for DownloadEvent {
    type V = DownloadEventV;

    open spec fn view(&self) -> DownloadEventV {
        match self {
            DownloadEvent::Delivered { content } => DownloadEventV::Delivered {
                content: content@,
            },
            DownloadEvent::Miss => DownloadEventV::Miss,
        }
    }
}

/// What the shell must do next for a download.
#[derive(Debug)]
pub enum DownloadCommand {
    /// Try this retrieval strategy now.
    Fetch { source: Source },
    /// Sleep the given milliseconds, then try this strategy.
    SleepThenFetch { millis: u64, source: Source },
    /// The download is done: write exactly these bytes to the destination.
    Write { content: Vec<u8> },
    /// The download is over; surface this error.
    Fail { error: Error },
}

/// The mathematical shadow of a [`DownloadCommand`].
pub enum DownloadCommandV {
    Fetch { source: Source },
    SleepThenFetch { millis: int, source: Source },
    Write { content: Seq<u8> },
    Fail { error: ErrorV },
}

impl View for DownloadCommand {
    type V = DownloadCommandV;

    open spec fn view(&self) -> DownloadCommandV {
        match self {
            DownloadCommand::Fetch { source } => DownloadCommandV::Fetch { source: *source },
            DownloadCommand::SleepThenFetch { millis, source } => {
                DownloadCommandV::SleepThenFetch { millis: *millis as int, source: *source }
            },
            DownloadCommand::Write { content } => DownloadCommandV::Write { content: content@ },
            DownloadCommand::Fail { error } => DownloadCommandV::Fail { error: error@ },
        }
    }
}

impl DownloadMachine {
    /// The round counter stays within the three allowed rounds, and the
    /// gateway strategy is only ever in flight when one is configured.
    pub open spec fn wf(self) -> bool {
        1 <= self.round <= 3 && (self.source is Gateway ==> self.gateway)
    }

    /// Starting a download tries the block strategy of round one at once;
    /// no backoff precedes the first round.
    pub fn start(gateway_configured: bool) -> (r: (DownloadMachine, DownloadCommand))
        ensures
            r.0 == (DownloadMachine { round: 1, source: Source::Block,
                gateway: gateway_configured }),
            r.1@ == (DownloadCommandV::Fetch { source: Source::Block }),
            r.0.wf(),
    {
        (
            DownloadMachine { round: 1, source: Source::Block, gateway: gateway_configured },
            DownloadCommand::Fetch { source: Source::Block },
        )
    }

    /// The transition relation of the download policy: the first delivery
    /// wins and is written unchanged; a miss moves to the next strategy in
    /// order (skipping the gateway when none is configured); a spent round
    /// backs off before the next; the third spent round is fatal.
    pub open spec fn spec_step(self, ev: DownloadEventV) -> (DownloadMachine, DownloadCommandV) {
        match ev {
            DownloadEventV::Delivered { content } => (self, DownloadCommandV::Write { content }),
            DownloadEventV::Miss => {
                if self.source is Block {
                    (
                        DownloadMachine { source: Source::Cat, ..self },
                        DownloadCommandV::Fetch { source: Source::Cat },
                    )
                } else if self.source is Cat && self.gateway {
                    (
                        DownloadMachine { source: Source::Gateway, ..self },
                        DownloadCommandV::Fetch { source: Source::Gateway },
                    )
                } else if self.round < 3 {
                    (
                        DownloadMachine {
                            round: (self.round + 1) as u8,
                            source: Source::Block,
                            gateway: self.gateway,
                        },
                        DownloadCommandV::SleepThenFetch {
                            millis: spec_blob_backoff(self.round as int),
                            source: Source::Block,
                        },
                    )
                } else {
                    (self, DownloadCommandV::Fail { error: ErrorV::DownloadFailed })
                }
            },
        }
    }

    pub fn step(self, ev: DownloadEvent) -> (r: (DownloadMachine, DownloadCommand))
        requires
            self.wf(),
        ensures
            r.0 == self.spec_step(ev@).0,
            r.1@ == self.spec_step(ev@).1,
            r.0.wf(),
    {
        match ev {
            DownloadEvent::Delivered { content } => (self, DownloadCommand::Write { content }),
            DownloadEvent::Miss => {
                match self.source {
                    Source::Block => (
                        DownloadMachine { source: Source::Cat, ..self },
                        DownloadCommand::Fetch { source: Source::Cat },
                    ),
                    Source::Cat if self.gateway => (
                        DownloadMachine { source: Source::Gateway, ..self },
                        DownloadCommand::Fetch { source: Source::Gateway },
                    ),
                    _ => {
                        if self.round < 3 {
                            let millis: u64 = if self.round == 1 { 1000 } else { 2000 };
                            proof {
                                assert(spec_blob_backoff(1) == 1000);
                                assert(spec_blob_backoff(2) == 2000);
                            }
                            (
                                DownloadMachine {
                                    round: self.round + 1,
                                    source: Source::Block,
                                    gateway: self.gateway,
                                },
                                DownloadCommand::SleepThenFetch {
                                    millis,
                                    source: Source::Block,
                                },
                            )
                        } else {
                            (self, DownloadCommand::Fail { error: Error::DownloadFailed })
                        }
                    },
                }
            },
        }
    }
}

/// The content round trip, as far as the store's own behaviour is out of
/// reach: an upload posts its payload byte-for-byte on every attempt, and a
/// download writes a delivery byte-for-byte. So whenever the store serves
/// back what was posted, the bytes a download writes are exactly the bytes
/// the upload was started with, whichever strategy delivered them.
pub proof fn lemma_blob_round_trip(
    payload: Seq<u8>,
    up: UploadMachine,
    down: DownloadMachine,
    ev: UploadEventV,
)
    requires
        up.payload@ == payload,
    ensures
        up.spec_step(ev).0.payload@ == payload,
        (up.spec_step(ev).1 matches UploadCommandV::SleepThenPost { content, .. }
            ==> content == payload),
        down.spec_step(DownloadEventV::Delivered { content: payload }).1
            == (DownloadCommandV::Write { content: payload }),
{
}

/// A download served by the second strategy of the first round succeeds in
/// that round, with no backoff sleep ever commanded: from the start, a block
/// miss moves straight to the cat fetch, and a cat delivery writes the
/// served bytes.
pub proof fn lemma_download_second_strategy_first_round(gateway: bool, served: Seq<u8>)
    ensures
        ({
            let (m0, c0) = (
                DownloadMachine { round: 1, source: Source::Block, gateway },
                DownloadCommandV::Fetch { source: Source::Block },
            );
            let (m1, c1) = m0.spec_step(DownloadEventV::Miss);
            let (m2, c2) = m1.spec_step(DownloadEventV::Delivered { content: served });
            &&& c1 == (DownloadCommandV::Fetch { source: Source::Cat })
            &&& m1.round == 1
            &&& c2 == (DownloadCommandV::Write { content: served })
            &&& m2.round == 1
        }),
{
}

} // verus!
