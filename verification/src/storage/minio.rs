//! The delivery of the artifact to the object store, in one piece or in
//! numbered parts.

use crate::error::Error;
use crate::utils::math::{ceil_div, ceil_div_u64, lemma_ceil_div_is_least};
use vstd::prelude::*;

verus! {

/// The size of a part, and the largest artifact that is stored in one
/// piece: 8 MiB.
pub const CHUNK_SIZE: u64 = 8388608;

/// The largest number that the object store takes for a part.
pub const MAX_PARTS: u64 = 2147483647;

/// The number of parts that an artifact of `size` bytes is sent in.
pub open spec fn parts_of(size: nat) -> nat {
    ceil_div(size, CHUNK_SIZE as nat)
}

/// Where part number `part`, counted from one, begins in the artifact.
pub open spec fn part_offset(part: nat) -> nat
    recommends
        part >= 1,
{
    ((part - 1) * CHUNK_SIZE) as nat
}

/// How many bytes part number `part` of an artifact of `size` bytes holds:
/// a full chunk, or what is left for the last part.
pub open spec fn part_length(size: nat, part: nat) -> nat
    recommends
        1 <= part <= parts_of(size),
{
    if part * CHUNK_SIZE <= size {
        CHUNK_SIZE as nat
    } else {
        (size - part_offset(part)) as nat
    }
}

/// The parts lie end to end and cover the artifact: each holds between one
/// byte and a full chunk, each begins where the one before it ends, and the
/// last ends with the artifact.
pub proof fn lemma_parts_cover(size: nat, part: nat)
    requires
        1 <= part <= parts_of(size),
    ensures
        1 <= part_length(size, part) <= CHUNK_SIZE,
        part_offset(part) + part_length(size, part) <= size,
        part < parts_of(size) ==> part_offset(part) + part_length(size, part) == part_offset(
            part + 1,
        ),
        part == parts_of(size) ==> part_offset(part) + part_length(size, part) == size,
{
    let parts = parts_of(size);
    lemma_ceil_div_is_least(size, CHUNK_SIZE as nat);
    assert((part - 1) * CHUNK_SIZE <= (parts - 1) * CHUNK_SIZE) by (nonlinear_arith)
        requires
            part <= parts,
    ;
    assert(part * CHUNK_SIZE == (part - 1) * CHUNK_SIZE + CHUNK_SIZE) by (nonlinear_arith);
    if part < parts {
        assert(part * CHUNK_SIZE <= (parts - 1) * CHUNK_SIZE) by (nonlinear_arith)
            requires
                part <= parts - 1,
        ;
    }
}

/// The receipt for one part: its number and the token that the object store
/// gave for it.
#[derive(Debug)]
pub struct CompletedPart {
    pub part_number: i32,
    pub e_tag: String,
}

/// The receipts of the first parts of an upload, in order and without gaps.
pub open spec fn receipts_in_order(receipts: Seq<CompletedPart>) -> bool {
    forall|i: int| 0 <= i < receipts.len() ==> (#[trigger] receipts[i]).part_number == i + 1
}

/// Where an upload stands.
#[derive(Debug)]
pub enum UploadPhase {
    /// The artifact is being stored in one piece.
    Single,
    /// The multi-part session is being opened.
    Creating,
    /// The part after the ones in `receipts` is being sent.
    Uploading { upload_id: String, receipts: Vec<CompletedPart> },
    /// The session is being completed.
    Completing,
    /// The artifact is stored.
    Done,
    /// The upload was given up.
    Failed,
}

/// The state of the upload of one artifact.
#[derive(Debug)]
pub struct UploadState {
    /// The size of the artifact in bytes.
    pub size: u64,
    pub phase: UploadPhase,
}

impl UploadState {
    /// An upload in one piece is of an artifact within the chunk size; a
    /// multi-part upload is of a larger one, and holds the receipts of the
    /// parts sent so far, of which at least one is still to send.
    pub open spec fn wf(self) -> bool {
        match self.phase {
            UploadPhase::Single => self.size <= CHUNK_SIZE,
            UploadPhase::Creating => self.size > CHUNK_SIZE && parts_of(self.size as nat)
                <= MAX_PARTS,
            UploadPhase::Uploading { receipts, .. } => {
                &&& self.size > CHUNK_SIZE
                &&& parts_of(self.size as nat) <= MAX_PARTS
                &&& receipts@.len() < parts_of(self.size as nat)
                &&& receipts_in_order(receipts@)
            },
            UploadPhase::Completing => self.size > CHUNK_SIZE,
            UploadPhase::Done => true,
            UploadPhase::Failed => true,
        }
    }

    /// Tells whether the state is one that the upload can be in.
    #[verifier::loop_isolation(false)]
    pub fn is_valid(&self) -> (yes: bool)
        ensures
            yes == self.wf(),
    {
        match &self.phase {
            UploadPhase::Single => self.size <= CHUNK_SIZE,
            UploadPhase::Creating => self.size > CHUNK_SIZE && ceil_div_u64(self.size, CHUNK_SIZE)
                <= MAX_PARTS,
            UploadPhase::Uploading { receipts, .. } => {
                if self.size <= CHUNK_SIZE {
                    return false;
                }
                let parts: u64 = ceil_div_u64(self.size, CHUNK_SIZE);
                if parts > MAX_PARTS || receipts.len() as u64 >= parts {
                    return false;
                }
                let mut i: usize = 0;
                while i < receipts.len()
                    invariant
                        i <= receipts@.len(),
                        receipts@.len() < MAX_PARTS,
                        forall|j: int| 0 <= j < i ==> (#[trigger] receipts@[j]).part_number == j + 1,
                    decreases receipts@.len() - i,
                {
                    if receipts[i].part_number as i64 != i as i64 + 1 {
                        return false;
                    }
                    i += 1;
                }
                true
            },
            UploadPhase::Completing => self.size > CHUNK_SIZE,
            UploadPhase::Done => true,
            UploadPhase::Failed => true,
        }
    }

    /// Whether `event` is one that the upload waits for.
    pub open spec fn awaits(self, event: UploadEvent) -> bool {
        match self.phase {
            UploadPhase::Single => event is Stored || event is Failed,
            UploadPhase::Creating => event is SessionCreated || event is Failed,
            UploadPhase::Uploading { .. } => event is PartUploaded || event is Failed,
            UploadPhase::Completing => event is Completed || event is Failed,
            UploadPhase::Done => false,
            UploadPhase::Failed => false,
        }
    }

    /// Tells whether `event` is one that the upload waits for.
    pub fn expects(&self, event: &UploadEvent) -> (yes: bool)
        ensures
            yes == self.awaits(*event),
    {
        let failed = matches!(event, UploadEvent::Failed(_));
        match self.phase {
            UploadPhase::Single => matches!(event, UploadEvent::Stored) || failed,
            UploadPhase::Creating => matches!(event, UploadEvent::SessionCreated { .. }) || failed,
            UploadPhase::Uploading { .. } => matches!(event, UploadEvent::PartUploaded { .. })
                || failed,
            UploadPhase::Completing => matches!(event, UploadEvent::Completed) || failed,
            UploadPhase::Done => false,
            UploadPhase::Failed => false,
        }
    }
}

/// What the object store reports to the upload.
#[derive(Debug)]
pub enum UploadEvent {
    /// The artifact was stored in one piece.
    Stored,
    /// The session was opened; the store may have withheld its id.
    SessionCreated { upload_id: Option<String> },
    /// The part was stored; the store may have withheld its token.
    PartUploaded { e_tag: Option<String> },
    /// The session was completed.
    Completed,
    /// The last request failed.
    Failed(Error),
}

/// What the upload asks of the object store.
#[derive(Debug)]
pub enum UploadAction {
    /// Store the whole artifact at once.
    PutObject,
    /// Open a multi-part session.
    CreateSession,
    /// Send `length` bytes of the artifact, from `offset` on, as the part
    /// with this number.
    UploadPart { upload_id: String, part_number: i32, offset: u64, length: u64 },
    /// Complete the session with the receipts of all parts.
    Complete { upload_id: String, parts: Vec<CompletedPart> },
    /// The artifact is stored; nothing is left to do.
    Finish,
    /// The upload is given up with this failure.
    Abort(Error),
}

/// The token that stands for one the store withheld: the empty text.
pub open spec fn token_text(e_tag: Option<String>) -> Seq<char> {
    match e_tag {
        Some(tag) => tag@,
        None => Seq::empty(),
    }
}

/// The words for a bucket that cannot be reached.
pub open spec fn access_failure_text(bucket: Seq<char>, reason: Seq<char>) -> Seq<char> {
    "Cannot access bucket '"@ + bucket + "': "@ + reason
}

/// The words for a failed upload: the failure that the store reported with
/// its raw response, or else the failure of the request itself.
pub open spec fn upload_failure_text(service: Option<(Seq<char>, Seq<char>)>, reason: Seq<char>) -> Seq<
    char,
> {
    match service {
        Some((failure, raw)) => "MinIO service error: "@ + failure + " (raw: "@ + raw + ")"@,
        None => "MinIO error: "@ + reason,
    }
}

/// The delivery of the artifact to the object store, in one piece or in
/// parts.
#[derive(Debug)]
pub struct MinioUploader {
    bucket: String,
}

impl MinioUploader {
    /// The bucket that the artifact goes to.
    pub closed spec fn bucket_name(self) -> Seq<char> {
        self.bucket@
    }

    /// An uploader for the bucket of that name.
    pub fn new(bucket: &str) -> (uploader: MinioUploader)
        ensures
            uploader.bucket_name() == bucket@,
    {
        MinioUploader { bucket: String::from_str(bucket) }
    }

    /// The bucket that the artifact goes to.
    pub fn bucket(&self) -> (name: &str)
        ensures
            name@ == self.bucket_name(),
    {
        self.bucket.as_str()
    }

    /// The failure of an uploader whose bucket cannot be reached.
    pub fn access_failure(bucket: &str, reason: &str) -> (failure: Error)
        ensures
            failure matches Error::Storage(words) && words@ == access_failure_text(
                bucket@,
                reason@,
            ),
    {
        let mut words = String::from_str("Cannot access bucket '");
        words.append(bucket);
        words.append("': ");
        words.append(reason);
        Error::Storage(words)
    }

    /// The failure of an upload: `service` holds what the store reported
    /// and its raw response, where it reported anything; `reason` is the
    /// failure of the request.
    pub fn upload_failure(service: Option<(String, String)>, reason: &str) -> (failure: Error)
        ensures
            failure matches Error::Storage(words) && words@ == upload_failure_text(
                match service {
                    Some((reported, raw)) => Some((reported@, raw@)),
                    None => None,
                },
                reason@,
            ),
    {
        match service {
            Some((reported, raw)) => {
                let mut words = String::from_str("MinIO service error: ");
                words.append(reported.as_str());
                words.append(" (raw: ");
                words.append(raw.as_str());
                words.append(")");
                Error::Storage(words)
            },
            None => {
                let mut words = String::from_str("MinIO error: ");
                words.append(reason);
                Error::Storage(words)
            },
        }
    }

    /// The content type under which the artifact is stored.
    pub fn content_type() -> (name: &'static str)
        ensures
            name@ == "application/x-parquet"@,
    {
        "application/x-parquet"
    }

    fn part(upload_id: &String, size: u64, number: u64) -> (action: UploadAction)
        requires
            size > CHUNK_SIZE,
            1 <= number <= parts_of(size as nat) <= MAX_PARTS,
        ensures
            ({
                &&& action matches UploadAction::UploadPart {
                    upload_id: id,
                    part_number,
                    offset,
                    length,
                }
                &&& id == *upload_id
                &&& part_number == number
                &&& offset == part_offset(number as nat)
                &&& length == part_length(size as nat, number as nat)
            }),
    {
        proof {
            lemma_parts_cover(size as nat, number as nat);
            assert((number - 1) * CHUNK_SIZE <= MAX_PARTS * CHUNK_SIZE) by (nonlinear_arith)
                requires
                    number <= MAX_PARTS,
            ;
            assert(number * CHUNK_SIZE == (number - 1) * CHUNK_SIZE + CHUNK_SIZE)
                by (nonlinear_arith);
        }
        let offset: u64 = (number - 1) * CHUNK_SIZE;
        let left: u64 = size - offset;
        let length: u64 = if left >= CHUNK_SIZE {
            CHUNK_SIZE
        } else {
            left
        };
        UploadAction::UploadPart {
            upload_id: upload_id.clone(),
            part_number: number as i32,
            offset,
            length,
        }
    }

    /// Begins the upload of an artifact of `file_size` bytes. Up to the
    /// chunk size the artifact is stored in one piece; a larger one is sent
    /// in parts of the chunk size, unless it would take more parts than the
    /// store can number.
    pub fn upload_parquet_file(&self, file_size: u64) -> (begun: (UploadState, UploadAction))
        ensures
            begun.0.wf(),
            begun.0.size == file_size,
            file_size <= CHUNK_SIZE ==> begun.0.phase is Single && begun.1 is PutObject,
            file_size > CHUNK_SIZE && parts_of(file_size as nat) <= MAX_PARTS ==> begun.0.phase
                is Creating && begun.1 is CreateSession,
            file_size > CHUNK_SIZE && parts_of(file_size as nat) > MAX_PARTS ==> {
                &&& begun.0.phase is Failed
                &&& begun.1 matches UploadAction::Abort(Error::Storage(reason))
                &&& reason@ == "Too many parts"@
            },
    {
        if file_size <= CHUNK_SIZE {
            (UploadState { size: file_size, phase: UploadPhase::Single }, UploadAction::PutObject)
        } else if ceil_div_u64(file_size, CHUNK_SIZE) > MAX_PARTS {
            (
                UploadState { size: file_size, phase: UploadPhase::Failed },
                UploadAction::Abort(Error::Storage(String::from_str("Too many parts"))),
            )
        } else {
            (
                UploadState { size: file_size, phase: UploadPhase::Creating },
                UploadAction::CreateSession,
            )
        }
    }

    /// Takes the store's answer to the upload in one piece.
    pub fn upload_single_part(&self, state: &mut UploadState, event: UploadEvent) -> (action:
        UploadAction)
        requires
            old(state).wf(),
            old(state).phase is Single,
            old(state).awaits(event),
        ensures
            final(state).wf(),
            final(state).size == old(state).size,
            match event {
                UploadEvent::Failed(failure) => final(state).phase is Failed && action == (
                UploadAction::Abort(failure)),
                _ => final(state).phase is Done && action is Finish,
            },
    {
        match event {
            UploadEvent::Failed(failure) => {
                state.phase = UploadPhase::Failed;
                UploadAction::Abort(failure)
            },
            _ => {
                state.phase = UploadPhase::Done;
                UploadAction::Finish
            },
        }
    }

    /// Takes the store's answer to the last request of a multi-part upload
    /// and says what to ask next.
    ///
    /// Once the session is open the parts are sent one after the other,
    /// numbered from one without gaps, each a full chunk but for the last.
    /// The receipt of each part is kept, and when the last part is stored
    /// the session is completed with all receipts in the order of the parts.
    /// Any failure gives up the upload; a session without an id is a failure.
    pub fn upload_multipart(&self, state: &mut UploadState, event: UploadEvent) -> (action:
        UploadAction)
        requires
            old(state).wf(),
            !(old(state).phase is Single),
            old(state).awaits(event),
        ensures
            final(state).wf(),
            final(state).size == old(state).size,
            match (old(state).phase, event) {
                (_, UploadEvent::Failed(failure)) => final(state).phase is Failed && action == (
                UploadAction::Abort(failure)),
                (UploadPhase::Creating, UploadEvent::SessionCreated { upload_id: None }) => {
                    &&& final(state).phase is Failed
                    &&& action matches UploadAction::Abort(Error::Storage(reason))
                    &&& reason@ == "Failed to get upload ID"@
                },
                (UploadPhase::Creating, UploadEvent::SessionCreated { upload_id: Some(id) }) => {
                    &&& final(state).phase matches UploadPhase::Uploading { upload_id, receipts }
                    &&& upload_id == id
                    &&& receipts@.len() == 0
                    &&& action matches UploadAction::UploadPart {
                        upload_id: to,
                        part_number,
                        offset,
                        length,
                    }
                    &&& to == id
                    &&& part_number == 1
                    &&& offset == 0
                    &&& length == part_length(old(state).size as nat, 1)
                },
                (
                    UploadPhase::Uploading { upload_id: id, receipts: earlier },
                    UploadEvent::PartUploaded { e_tag },
                ) => {
                    let number = earlier@.len() + 1;
                    if number < parts_of(old(state).size as nat) {
                        &&& final(state).phase matches UploadPhase::Uploading {
                            upload_id,
                            receipts,
                        }
                        &&& upload_id == id
                        &&& receipts@.len() == number
                        &&& receipts@.take(earlier@.len() as int) == earlier@
                        &&& receipts@.last().part_number == number
                        &&& receipts@.last().e_tag@ == token_text(e_tag)
                        &&& action matches UploadAction::UploadPart {
                            upload_id: to,
                            part_number,
                            offset,
                            length,
                        }
                        &&& to == id
                        &&& part_number == number + 1
                        &&& offset == part_offset(number + 1)
                        &&& length == part_length(old(state).size as nat, number + 1)
                    } else {
                        &&& final(state).phase is Completing
                        &&& action matches UploadAction::Complete { upload_id: to, parts }
                        &&& to == id
                        &&& parts@.len() == parts_of(old(state).size as nat)
                        &&& receipts_in_order(parts@)
                        &&& parts@.take(earlier@.len() as int) == earlier@
                        &&& parts@.last().e_tag@ == token_text(e_tag)
                    }
                },
                (UploadPhase::Completing, UploadEvent::Completed) => final(state).phase is Done
                    && action is Finish,
                _ => false,
            },
    {
        let size: u64 = state.size;
        let mut phase = UploadPhase::Failed;
        std::mem::swap(&mut state.phase, &mut phase);
        match (phase, event) {
            (_, UploadEvent::Failed(failure)) => UploadAction::Abort(failure),
            (UploadPhase::Creating, UploadEvent::SessionCreated { upload_id }) => {
                match upload_id {
                    None => UploadAction::Abort(
                        Error::Storage(String::from_str("Failed to get upload ID")),
                    ),
                    Some(id) => {
                        proof {
                            lemma_ceil_div_is_least(size as nat, CHUNK_SIZE as nat);
                            lemma_parts_cover(size as nat, 1);
                        }
                        let action = Self::part(&id, size, 1);
                        state.phase = UploadPhase::Uploading { upload_id: id, receipts: Vec::new() };
                        action
                    },
                }
            },
            (UploadPhase::Uploading { upload_id, receipts }, UploadEvent::PartUploaded { e_tag }) => {
                let mut receipts = receipts;
                let number: u64 = receipts.len() as u64 + 1;
                let token = match e_tag {
                    Some(tag) => tag,
                    None => String::new(),
                };
                receipts.push(CompletedPart { part_number: number as i32, e_tag: token });
                if number < ceil_div_u64(size, CHUNK_SIZE) {
                    let action = Self::part(&upload_id, size, number + 1);
                    state.phase = UploadPhase::Uploading { upload_id, receipts };
                    action
                } else {
                    state.phase = UploadPhase::Completing;
                    UploadAction::Complete { upload_id, parts: receipts }
                }
            },
            (UploadPhase::Completing, UploadEvent::Completed) => {
                state.phase = UploadPhase::Done;
                UploadAction::Finish
            },
            _ => vstd::pervasive::unreached(),
        }
    }
}

} // verus!
