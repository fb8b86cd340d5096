//! Fetching the prover input of a request.
//!
//! The input comes from a node over RPC, from a local file or from an
//! object in cloud storage. Reading, downloading, querying, parsing the
//! interval and deserialising are the caller's work; this module decides
//! what is to be done first, which block a range is anchored to, and what
//! each outcome of the outside work means.

use core::time::Duration;

use vstd::prelude::*;
use vstd::utf8::{decode_utf8, valid_utf8};

use crate::block_interval::{BlockId, BlockInterval};

verus! {

/// Why a checkpoint cannot be resolved.
#[derive(Clone, Copy, Debug, PartialEq, Eq, Structural)]
pub enum CheckpointError {
    /// The checkpoint is a constant block hash: proofs are never anchored to
    /// a hash.
    HashConstant,
    /// The offset is greater than the number of the first block.
    OffsetUnderflow,
    /// The interval is a single block named by a hash or a tag, which has no
    /// number to count back from.
    IntervalNotNumbered,
}

/// How the block is chosen that a proof range is anchored to: the block
/// whose state is taken as already verified.
#[derive(Clone, Copy, Debug, PartialEq, Eq)]
pub enum Checkpoint {
    /// Always the given block.
    Constant(BlockId),
    /// The block that lies this many blocks before the first block of the
    /// range.
    BlockNumberNegativeOffset(u64),
}

impl Default for Checkpoint {
    /// The block just before the range.
    fn default() -> (checkpoint: Self)
        ensures
            checkpoint == Checkpoint::BlockNumberNegativeOffset(1),
    {
        Checkpoint::BlockNumberNegativeOffset(1)
    }
}

/// The checkpoint block that a constant gives: the constant itself, unless
/// it is a hash.
pub open spec fn constant_checkpoint(id: BlockId) -> Result<BlockId, CheckpointError> {
    match id {
        BlockId::Number(_) => Ok(id),
        BlockId::Hash(_) => Err(CheckpointError::HashConstant),
    }
}

/// The checkpoint block that lies `offset` blocks before block `start`, if
/// there is one.
pub open spec fn offset_checkpoint(offset: u64, start: u64) -> Result<BlockId, CheckpointError> {
    if offset <= start {
        Ok(BlockId::spec_number((start - offset) as u64))
    } else {
        Err(CheckpointError::OffsetUnderflow)
    }
}

impl Checkpoint {
    /// Whether proofs can be anchored to what the checkpoint names: they can,
    /// unless it is a constant block hash.
    pub open spec fn spec_is_supported(self) -> bool {
        !(self matches Checkpoint::Constant(BlockId::Hash(_)))
    }

    /// The checkpoint block of a range that starts at block `block_number`.
    pub open spec fn spec_checkpoint_from_blocknum(self, block_number: u64) -> Result<
        BlockId,
        CheckpointError,
    > {
        match self {
            Checkpoint::Constant(id) => constant_checkpoint(id),
            Checkpoint::BlockNumberNegativeOffset(offset) => offset_checkpoint(
                offset,
                block_number,
            ),
        }
    }

    /// The checkpoint block of `block_interval`: none for a single block
    /// named by a hash or a tag, whatever the checkpoint; else that of a
    /// range that starts where the interval starts.
    pub open spec fn spec_checkpoint_from_interval(self, block_interval: BlockInterval) -> Result<
        BlockId,
        CheckpointError,
    > {
        match block_interval.spec_start() {
            None => Err(CheckpointError::IntervalNotNumbered),
            Some(start) => self.spec_checkpoint_from_blocknum(start),
        }
    }

    /// Whether proofs can be anchored to what the checkpoint names. A
    /// checkpoint is to be looked at with this when it is taken in, before
    /// any block is resolved with it.
    pub fn is_supported(&self) -> (supported: bool)
        ensures
            supported == self.spec_is_supported(),
    {
        match self {
            Checkpoint::Constant(BlockId::Hash(_)) => false,
            _ => true,
        }
    }

    /// Resolves the checkpoint block of a range that starts at block
    /// `block_number`.
    ///
    /// A constant is returned as it is, unless it is a hash. An offset is
    /// counted back from `block_number`, and rejected if it is greater.
    pub fn get_checkpoint_from_blocknum(&self, block_number: u64) -> (r: Result<
        BlockId,
        CheckpointError,
    >)
        ensures
            r == self.spec_checkpoint_from_blocknum(block_number),
    {
        match self {
            Checkpoint::Constant(BlockId::Number(number)) => Ok(BlockId::Number(*number)),
            Checkpoint::Constant(BlockId::Hash(_)) => Err(CheckpointError::HashConstant),
            Checkpoint::BlockNumberNegativeOffset(offset) => {
                if *offset <= block_number {
                    Ok(BlockId::number(block_number - *offset))
                } else {
                    Err(CheckpointError::OffsetUnderflow)
                }
            },
        }
    }

    /// Resolves the checkpoint block of `block_interval`.
    ///
    /// The interval is looked at first: a single block named by a hash or a
    /// tag has no checkpoint block, whatever the checkpoint. Else the
    /// checkpoint is resolved for the first block of the interval: the
    /// declared start of a range or of a followed chain, the number of a
    /// single block.
    pub fn get_checkpoint_from_interval(&self, block_interval: BlockInterval) -> (r: Result<
        BlockId,
        CheckpointError,
    >)
        ensures
            r == self.spec_checkpoint_from_interval(block_interval),
    {
        match block_interval.start() {
            None => Err(CheckpointError::IntervalNotNumbered),
            Some(start) => self.get_checkpoint_from_blocknum(start),
        }
    }
}

/// An offset that is no greater than the start of a range is counted back
/// from the start; a greater one is rejected.
pub proof fn lemma_range_offset(start: u64, end: u64, offset: u64)
    ensures
        offset <= start ==> Checkpoint::BlockNumberNegativeOffset(
            offset,
        ).spec_checkpoint_from_interval(BlockInterval::Range { start, end }) == Ok::<
            BlockId,
            CheckpointError,
        >(BlockId::spec_number((start - offset) as u64)),
        offset > start ==> Checkpoint::BlockNumberNegativeOffset(
            offset,
        ).spec_checkpoint_from_interval(BlockInterval::Range { start, end }) == Err::<
            BlockId,
            CheckpointError,
        >(CheckpointError::OffsetUnderflow),
{
}

/// Under an offset, following the chain from a block gives the checkpoint
/// of a range that starts at that block.
pub proof fn lemma_follow_from_as_range(
    start: u64,
    block_time: Option<u64>,
    end: u64,
    offset: u64,
)
    ensures
        Checkpoint::BlockNumberNegativeOffset(offset).spec_checkpoint_from_interval(
            BlockInterval::FollowFrom { start_block: start, block_time },
        ) == Checkpoint::BlockNumberNegativeOffset(offset).spec_checkpoint_from_interval(
            BlockInterval::Range { start, end },
        ),
{
}

/// A constant checkpoint that is no hash is the checkpoint of every
/// interval that can be proved: of every range, of every followed chain and
/// of every single block named by its number.
pub proof fn lemma_constant_checkpoint(id: BlockId, block_interval: BlockInterval)
    requires
        id is Number,
        block_interval.spec_is_supported(),
    ensures
        Checkpoint::Constant(id).spec_checkpoint_from_interval(block_interval) == Ok::<
            BlockId,
            CheckpointError,
        >(id),
{
}

/// A single block named by a hash or a tag has no checkpoint block,
/// whatever the checkpoint: the case is an error, and no block is guessed.
pub proof fn lemma_unnumbered_interval_is_refused(
    checkpoint: Checkpoint,
    block_interval: BlockInterval,
)
    requires
        !block_interval.spec_is_supported(),
    ensures
        checkpoint.spec_checkpoint_from_interval(block_interval) == Err::<
            BlockId,
            CheckpointError,
        >(CheckpointError::IntervalNotNumbered),
{
}

/// A checkpoint that is supported never fails for being a hash, and one
/// that is not supported resolves no block at all.
pub proof fn lemma_supported_checkpoint(
    checkpoint: Checkpoint,
    block_number: u64,
    block_interval: BlockInterval,
)
    ensures
        checkpoint.spec_is_supported() ==> checkpoint.spec_checkpoint_from_blocknum(block_number)
            != Err::<BlockId, CheckpointError>(CheckpointError::HashConstant)
            && checkpoint.spec_checkpoint_from_interval(block_interval) != Err::<
            BlockId,
            CheckpointError,
        >(CheckpointError::HashConstant),
        !checkpoint.spec_is_supported() ==> checkpoint.spec_checkpoint_from_blocknum(block_number)
            == Err::<BlockId, CheckpointError>(CheckpointError::HashConstant)
            && checkpoint.spec_checkpoint_from_interval(block_interval).is_err(),
{
}

/// The dialect that the node speaks.
#[derive(Clone, Copy, Debug, PartialEq, Eq, Structural)]
pub enum RpcType {
    Jerigon,
    Native,
}

/// Where the prover input of a request comes from.
#[derive(Debug, PartialEq, Eq)]
pub enum BlockSource {
    /// From a node, over RPC.
    Rpc {
        rpc_url: String,
        /// The interval as the request writes it. It is parsed outside this
        /// library, once the URL is known to be good.
        block_interval: String,
        /// `None` stands for the default checkpoint.
        checkpoint: Option<Checkpoint>,
        /// The time to wait before a retry, in milliseconds; `None` stands
        /// for 0.
        backoff: Option<u64>,
        /// The number of retries; `None` stands for 0.
        max_retries: Option<u32>,
        /// `None` stands for [`RpcType::Jerigon`].
        rpc_type: Option<RpcType>,
    },
    /// From a file on this machine.
    LocalFile { filepath: String },
    /// From an object in cloud storage.
    Gcs { filepath: String, bucket: String },
}

/// The mathematical content of a [`BlockSource`].
pub enum BlockSourceView {
    Rpc {
        rpc_url: Seq<char>,
        block_interval: Seq<char>,
        checkpoint: Option<Checkpoint>,
        backoff: Option<u64>,
        max_retries: Option<u32>,
        rpc_type: Option<RpcType>,
    },
    LocalFile { filepath: Seq<char> },
    Gcs { filepath: Seq<char>, bucket: Seq<char> },
}

impl View for BlockSource {
    type V = BlockSourceView;

    open spec fn view(&self) -> BlockSourceView {
        match self {
            BlockSource::Rpc {
                rpc_url,
                block_interval,
                checkpoint,
                backoff,
                max_retries,
                rpc_type,
            } => BlockSourceView::Rpc {
                rpc_url: rpc_url@,
                block_interval: block_interval@,
                checkpoint: *checkpoint,
                backoff: *backoff,
                max_retries: *max_retries,
                rpc_type: *rpc_type,
            },
            BlockSource::LocalFile { filepath } => BlockSourceView::LocalFile {
                filepath: filepath@,
            },
            BlockSource::Gcs { filepath, bucket } => BlockSourceView::Gcs {
                filepath: filepath@,
                bucket: bucket@,
            },
        }
    }
}

/// The stage at which a fetch failed, with what the failing part said.
#[derive(Debug, PartialEq, Eq)]
pub enum FetchCause {
    /// The node URL does not parse; the text is the parser's message.
    InvalidUrl(String),
    /// The checkpoint cannot be resolved.
    Checkpoint(CheckpointError),
    /// The RPC client failed.
    Client(String),
    /// The file could not be read, or the object not downloaded.
    Io(String),
    /// The downloaded bytes are not valid UTF-8.
    NotUtf8,
    /// The text is not a sequence of block inputs.
    Deserialize(String),
}

/// The mathematical content of a [`FetchCause`].
pub enum FetchCauseView {
    InvalidUrl(Seq<char>),
    Checkpoint(CheckpointError),
    Client(Seq<char>),
    Io(Seq<char>),
    NotUtf8,
    Deserialize(Seq<char>),
}

impl View for FetchCause {
    type V = FetchCauseView;

    open spec fn view(&self) -> FetchCauseView {
        match self {
            FetchCause::InvalidUrl(message) => FetchCauseView::InvalidUrl(message@),
            FetchCause::Checkpoint(e) => FetchCauseView::Checkpoint(*e),
            FetchCause::Client(message) => FetchCauseView::Client(message@),
            FetchCause::Io(message) => FetchCauseView::Io(message@),
            FetchCause::NotUtf8 => FetchCauseView::NotUtf8,
            FetchCause::Deserialize(message) => FetchCauseView::Deserialize(message@),
        }
    }
}

/// A failed fetch, by the kind of source, with its cause.
#[derive(Debug, PartialEq, Eq)]
pub enum FetchError {
    RpcFetchError(FetchCause),
    LocalFileErr(FetchCause),
    GcsErr(FetchCause),
}

/// The mathematical content of a [`FetchError`].
pub enum FetchErrorView {
    RpcFetchError(FetchCauseView),
    LocalFileErr(FetchCauseView),
    GcsErr(FetchCauseView),
}

impl View for FetchError {
    type V = FetchErrorView;

    open spec fn view(&self) -> FetchErrorView {
        match self {
            FetchError::RpcFetchError(cause) => FetchErrorView::RpcFetchError(cause@),
            FetchError::LocalFileErr(cause) => FetchErrorView::LocalFileErr(cause@),
            FetchError::GcsErr(cause) => FetchErrorView::GcsErr(cause@),
        }
    }
}

/// The prover input of a request: one input per block, and the time that
/// fetching each took.
#[derive(Debug, PartialEq, Eq)]
pub struct FetchResult<B> {
    pub proverinput: Vec<B>,
    pub fetch_times: Vec<Duration>,
}

/// What to ask a node for.
#[derive(Debug, PartialEq, Eq)]
pub struct RpcRequest {
    pub rpc_url: String,
    pub block_interval: BlockInterval,
    /// The block that the range is anchored to.
    pub checkpoint_block_id: BlockId,
    /// The time to wait before a retry, in milliseconds.
    pub backoff: u64,
    pub max_retries: u32,
    pub rpc_type: RpcType,
}

/// The mathematical content of an [`RpcRequest`].
pub struct RpcRequestView {
    pub rpc_url: Seq<char>,
    pub block_interval: BlockInterval,
    pub checkpoint_block_id: BlockId,
    pub backoff: u64,
    pub max_retries: u32,
    pub rpc_type: RpcType,
}

impl View for RpcRequest {
    type V = RpcRequestView;

    open spec fn view(&self) -> RpcRequestView {
        RpcRequestView {
            rpc_url: self.rpc_url@,
            block_interval: self.block_interval,
            checkpoint_block_id: self.checkpoint_block_id,
            backoff: self.backoff,
            max_retries: self.max_retries,
            rpc_type: self.rpc_type,
        }
    }
}

/// An RPC source whose URL is good and whose checkpoint is supported, with
/// the defaults filled in; its interval is still to be parsed.
#[derive(Debug, PartialEq, Eq)]
pub struct RpcPlan {
    pub rpc_url: String,
    /// The interval as the request writes it.
    pub block_interval: String,
    pub checkpoint: Checkpoint,
    /// The time to wait before a retry, in milliseconds.
    pub backoff: u64,
    pub max_retries: u32,
    pub rpc_type: RpcType,
}

/// The mathematical content of an [`RpcPlan`].
pub struct RpcPlanView {
    pub rpc_url: Seq<char>,
    pub block_interval: Seq<char>,
    pub checkpoint: Checkpoint,
    pub backoff: u64,
    pub max_retries: u32,
    pub rpc_type: RpcType,
}

impl View for RpcPlan {
    type V = RpcPlanView;

    open spec fn view(&self) -> RpcPlanView {
        RpcPlanView {
            rpc_url: self.rpc_url@,
            block_interval: self.block_interval@,
            checkpoint: self.checkpoint,
            backoff: self.backoff,
            max_retries: self.max_retries,
            rpc_type: self.rpc_type,
        }
    }
}

/// The outside work with which a fetch begins.
#[derive(Debug, PartialEq, Eq)]
pub enum FetchStep {
    /// Parse the interval of the plan, then build the request with
    /// [`rpc_request`] and query the node as the request says.
    ParseInterval(RpcPlan),
    /// Read the file as text.
    ReadFile { filepath: String },
    /// Download the whole object.
    DownloadObject { bucket: String, object: String },
}

/// The mathematical content of a [`FetchStep`].
pub enum FetchStepView {
    ParseInterval(RpcPlanView),
    ReadFile { filepath: Seq<char> },
    DownloadObject { bucket: Seq<char>, object: Seq<char> },
}

impl View for FetchStep {
    type V = FetchStepView;

    open spec fn view(&self) -> FetchStepView {
        match self {
            FetchStep::ParseInterval(plan) => FetchStepView::ParseInterval(plan@),
            FetchStep::ReadFile { filepath } => FetchStepView::ReadFile { filepath: filepath@ },
            FetchStep::DownloadObject { bucket, object } => FetchStepView::DownloadObject {
                bucket: bucket@,
                object: object@,
            },
        }
    }
}

/// The kind of source whose text is deserialised.
#[derive(Clone, Copy, Debug, PartialEq, Eq, Structural)]
pub enum TextOrigin {
    LocalFile,
    Gcs,
}

/// The message with which `url::Url::parse` rejects `input`, or `None`
/// where it accepts `input`.
pub uninterp spec fn url_parse_failure(input: Seq<char>) -> Option<Seq<char>>;

/// Calls `url::Url::parse` on `input`, which parses an absolute URL and
/// depends on `input` alone. Returns the text of the parse error, or `None`
/// where the URL parses.
#[verifier::external_body]
fn parse_url(input: &str) -> (failure: Option<String>)
    ensures
        match failure {
            Some(message) => url_parse_failure(input@) == Some(message@),
            None => url_parse_failure(input@).is_none(),
        },
{
    match url::Url::parse(input) {
        Ok(_) => None,
        Err(err) => Some(err.to_string()),
    }
}

/// Calls `String::from_utf8` on `bytes`, which gives the text that the bytes
/// encode exactly where they are valid UTF-8.
#[verifier::external_body]
fn text_from_utf8(bytes: Vec<u8>) -> (text: Option<String>)
    ensures
        text.is_some() == valid_utf8(bytes@),
        text matches Some(t) ==> t@ == decode_utf8(bytes@),
{
    match String::from_utf8(bytes) {
        Ok(text) => Some(text),
        Err(_) => None,
    }
}

/// The checkpoint that a source means: the one it names, or the default.
pub open spec fn checkpoint_or_default(checkpoint: Option<Checkpoint>) -> Checkpoint {
    match checkpoint {
        Some(checkpoint) => checkpoint,
        None => Checkpoint::BlockNumberNegativeOffset(1),
    }
}

/// The views of a result and of its error.
pub open spec fn result_view<T: View, E: View>(r: Result<T, E>) -> Result<T::V, E::V> {
    match r {
        Ok(value) => Ok(value@),
        Err(e) => Err(e@),
    }
}

/// The view of an optional text.
pub open spec fn text_view(text: Option<String>) -> Option<Seq<char>> {
    match text {
        Some(text) => Some(text@),
        None => None,
    }
}

/// The outside work with which fetching from `source` begins, given what
/// parsing the URL of an RPC source said.
///
/// For an RPC source: an error where the URL does not parse; else an error
/// where the checkpoint is a constant hash; else the plan, with the default
/// checkpoint where the source names none, no retry and no wait where it
/// names none, and the Jerigon dialect where it names none. A file is to be
/// read and an object to be downloaded.
pub open spec fn spec_fetch(source: BlockSourceView, url_failure: Option<Seq<char>>) -> Result<
    FetchStepView,
    FetchErrorView,
> {
    match source {
        BlockSourceView::Rpc {
            rpc_url,
            block_interval,
            checkpoint,
            backoff,
            max_retries,
            rpc_type,
        } => match url_failure {
            Some(message) => Err(
                FetchErrorView::RpcFetchError(FetchCauseView::InvalidUrl(message)),
            ),
            None => if !checkpoint_or_default(checkpoint).spec_is_supported() {
                Err(
                    FetchErrorView::RpcFetchError(
                        FetchCauseView::Checkpoint(CheckpointError::HashConstant),
                    ),
                )
            } else {
                Ok(
                    FetchStepView::ParseInterval(
                        RpcPlanView {
                            rpc_url,
                            block_interval,
                            checkpoint: checkpoint_or_default(checkpoint),
                            backoff: match backoff {
                                Some(backoff) => backoff,
                                None => 0,
                            },
                            max_retries: match max_retries {
                                Some(max_retries) => max_retries,
                                None => 0,
                            },
                            rpc_type: match rpc_type {
                                Some(rpc_type) => rpc_type,
                                None => RpcType::Jerigon,
                            },
                        },
                    ),
                )
            },
        },
        BlockSourceView::LocalFile { filepath } => Ok(FetchStepView::ReadFile { filepath }),
        BlockSourceView::Gcs { filepath, bucket } => Ok(
            FetchStepView::DownloadObject { bucket, object: filepath },
        ),
    }
}

/// What parsing the URL of `source` says, where `source` has one.
pub open spec fn source_url_failure(source: BlockSourceView) -> Option<Seq<char>> {
    match source {
        BlockSourceView::Rpc {
            rpc_url,
            block_interval,
            checkpoint,
            backoff,
            max_retries,
            rpc_type,
        } => url_parse_failure(rpc_url),
        _ => None,
    }
}

/// Decides the outside work with which fetching from `source` begins.
/// `url_failure` is what parsing the URL of an RPC source said: the
/// parser's message, or `None` where the URL parses; it is not looked at
/// for a file or an object.
pub fn begin_fetch(source: &BlockSource, url_failure: Option<String>) -> (r: Result<
    FetchStep,
    FetchError,
>)
    ensures
        result_view(r) == spec_fetch(source@, text_view(url_failure)),
{
    match source {
        BlockSource::Rpc {
            rpc_url,
            block_interval,
            checkpoint,
            backoff,
            max_retries,
            rpc_type,
        } => {
            if let Some(message) = url_failure {
                return Err(FetchError::RpcFetchError(FetchCause::InvalidUrl(message)));
            }
            let checkpoint = match checkpoint {
                Some(checkpoint) => *checkpoint,
                None => Checkpoint::default(),
            };
            if !checkpoint.is_supported() {
                return Err(
                    FetchError::RpcFetchError(
                        FetchCause::Checkpoint(CheckpointError::HashConstant),
                    ),
                );
            }
            Ok(
                FetchStep::ParseInterval(
                    RpcPlan {
                        rpc_url: rpc_url.clone(),
                        block_interval: block_interval.clone(),
                        checkpoint,
                        backoff: match backoff {
                            Some(backoff) => *backoff,
                            None => 0,
                        },
                        max_retries: match max_retries {
                            Some(max_retries) => *max_retries,
                            None => 0,
                        },
                        rpc_type: match rpc_type {
                            Some(rpc_type) => *rpc_type,
                            None => RpcType::Jerigon,
                        },
                    },
                ),
            )
        },
        BlockSource::LocalFile { filepath } => Ok(
            FetchStep::ReadFile { filepath: filepath.clone() },
        ),
        BlockSource::Gcs { filepath, bucket } => Ok(
            FetchStep::DownloadObject { bucket: bucket.clone(), object: filepath.clone() },
        ),
    }
}

/// Begins the fetch of the prover input from `source`: says which outside
/// work is to be done, or why none can be.
///
/// For an RPC source the URL is parsed first and the checkpoint is looked
/// at next; the interval is parsed only after both. File and object sources
/// cannot fail here.
pub fn fetch(source: &BlockSource) -> (r: Result<FetchStep, FetchError>)
    ensures
        result_view(r) == spec_fetch(source@, source_url_failure(source@)),
{
    let url_failure = match source {
        BlockSource::Rpc {
            rpc_url,
            block_interval: _,
            checkpoint: _,
            backoff: _,
            max_retries: _,
            rpc_type: _,
        } => parse_url(rpc_url.as_str()),
        _ => None,
    };
    begin_fetch(source, url_failure)
}

/// The request that `plan` stands for once its interval is parsed to
/// `block_interval`: an error where the checkpoint of the plan resolves no
/// block for the interval; else the request, anchored to that block.
pub open spec fn spec_rpc_request(plan: RpcPlanView, block_interval: BlockInterval) -> Result<
    RpcRequestView,
    FetchErrorView,
> {
    match plan.checkpoint.spec_checkpoint_from_interval(block_interval) {
        Err(e) => Err(FetchErrorView::RpcFetchError(FetchCauseView::Checkpoint(e))),
        Ok(checkpoint_block_id) => Ok(
            RpcRequestView {
                rpc_url: plan.rpc_url,
                block_interval,
                checkpoint_block_id,
                backoff: plan.backoff,
                max_retries: plan.max_retries,
                rpc_type: plan.rpc_type,
            },
        ),
    }
}

/// A request is built only for an interval that can be proved, and its
/// checkpoint block is the one that the checkpoint of the plan gives for
/// that interval.
pub proof fn lemma_request_is_anchored(plan: RpcPlanView, block_interval: BlockInterval)
    requires
        spec_rpc_request(plan, block_interval).is_ok(),
    ensures
        block_interval.spec_is_supported(),
        plan.checkpoint.spec_is_supported(),
        spec_rpc_request(plan, block_interval) matches Ok(request)
            && plan.checkpoint.spec_checkpoint_from_interval(block_interval) == Ok::<
            BlockId,
            CheckpointError,
        >(request.checkpoint_block_id),
{
}

/// Builds the request that `plan` stands for, once its interval is parsed
/// to `block_interval`.
pub fn rpc_request(plan: RpcPlan, block_interval: BlockInterval) -> (r: Result<
    RpcRequest,
    FetchError,
>)
    ensures
        result_view(r) == spec_rpc_request(plan@, block_interval),
{
    match plan.checkpoint.get_checkpoint_from_interval(block_interval) {
        Err(e) => Err(FetchError::RpcFetchError(FetchCause::Checkpoint(e))),
        Ok(checkpoint_block_id) => Ok(
            RpcRequest {
                rpc_url: plan.rpc_url,
                block_interval,
                checkpoint_block_id,
                backoff: plan.backoff,
                max_retries: plan.max_retries,
                rpc_type: plan.rpc_type,
            },
        ),
    }
}

/// What the reply of the RPC client means: the input as it came, or an RPC
/// fetch error that carries the client's message.
pub fn rpc_outcome<B>(reply: Result<FetchResult<B>, String>) -> (r: Result<
    FetchResult<B>,
    FetchError,
>)
    ensures
        match reply {
            Ok(input) => r == Ok::<FetchResult<B>, FetchError>(input),
            Err(message) => r matches Err(e) && e@ == FetchErrorView::RpcFetchError(
                FetchCauseView::Client(message@),
            ),
        },
{
    match reply {
        Ok(input) => Ok(input),
        Err(message) => Err(FetchError::RpcFetchError(FetchCause::Client(message))),
    }
}

/// What reading the local file means: its text, or a local-file error that
/// carries the message of the failed read.
pub fn file_text(read: Result<String, String>) -> (r: Result<String, FetchError>)
    ensures
        match read {
            Ok(text) => r == Ok::<String, FetchError>(text),
            Err(message) => r matches Err(e) && e@ == FetchErrorView::LocalFileErr(
                FetchCauseView::Io(message@),
            ),
        },
{
    match read {
        Ok(text) => Ok(text),
        Err(message) => Err(FetchError::LocalFileErr(FetchCause::Io(message))),
    }
}

/// The text of a downloaded object: an error with the message of the failed
/// download; else an error where the bytes are not valid UTF-8; else the
/// text that the bytes encode.
pub open spec fn spec_object_text(download: Result<Seq<u8>, Seq<char>>) -> Result<
    Seq<char>,
    FetchErrorView,
> {
    match download {
        Err(message) => Err(FetchErrorView::GcsErr(FetchCauseView::Io(message))),
        Ok(bytes) => if valid_utf8(bytes) {
            Ok(decode_utf8(bytes))
        } else {
            Err(FetchErrorView::GcsErr(FetchCauseView::NotUtf8))
        },
    }
}

/// What downloading the object means: its text, or a cloud-object error for
/// the failed download or for bytes that are no text.
pub fn object_text(download: Result<Vec<u8>, String>) -> (r: Result<String, FetchError>)
    ensures
        result_view(r) == spec_object_text(
            match download {
                Ok(bytes) => Ok(bytes@),
                Err(message) => Err(message@),
            },
        ),
{
    match download {
        Err(message) => Err(FetchError::GcsErr(FetchCause::Io(message))),
        Ok(bytes) => match text_from_utf8(bytes) {
            Some(text) => Ok(text),
            None => Err(FetchError::GcsErr(FetchCause::NotUtf8)),
        },
    }
}

/// The error of `origin` with `cause`.
pub open spec fn origin_error(origin: TextOrigin, cause: FetchCauseView) -> FetchErrorView {
    match origin {
        TextOrigin::LocalFile => FetchErrorView::LocalFileErr(cause),
        TextOrigin::Gcs => FetchErrorView::GcsErr(cause),
    }
}

/// What deserialising the text of a file or an object means: the blocks in
/// their order with no fetch times, or an error of that kind of source that
/// carries the deserialiser's message.
pub fn blocks_outcome<B>(origin: TextOrigin, parsed: Result<Vec<B>, String>) -> (r: Result<
    FetchResult<B>,
    FetchError,
>)
    ensures
        match parsed {
            Ok(blocks) => r matches Ok(input) && input.proverinput == blocks
                && input.fetch_times@ == Seq::<Duration>::empty(),
            Err(message) => r matches Err(e) && e@ == origin_error(
                origin,
                FetchCauseView::Deserialize(message@),
            ),
        },
{
    match parsed {
        Ok(blocks) => Ok(FetchResult { proverinput: blocks, fetch_times: Vec::new() }),
        Err(message) => match origin {
            TextOrigin::LocalFile => Err(
                FetchError::LocalFileErr(FetchCause::Deserialize(message)),
            ),
            TextOrigin::Gcs => Err(FetchError::GcsErr(FetchCause::Deserialize(message))),
        },
    }
}

} // verus!
