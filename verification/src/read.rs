//! Reading a file's content into memory.
//!
//! [`read_file`] finds the content of a path in a revision, and [`read_content`]
//! streams the content of an address. Neither touches a repository: each names
//! the next thing it needs as an action, and goes on when the action's `next`
//! is resumed with what came back.
//!
//! `S` is a revision signature, `N` a node of a revision's state and `A` the
//! address of content. They are carried through and never looked into.
use bytes::Bytes;
use vstd::prelude::*;
use crate::bytes_spec::content;
use crate::errors::Detail;
use crate::text::{decimal, decimal_text};

verus! {

/// The errors that callers of the library see.
#[derive(Clone, Copy, Debug, PartialEq, Eq, Structural)]
pub enum LoreError {
    InvalidArguments,
    NotFound,
    FileNotFound,
    Internal,
}

/// Why a read failed.
#[derive(Debug)]
pub enum ReadError {
    InvalidArguments(Detail),
    InvalidPath(Detail),
    InvalidAddress(Detail),
    RevisionNotFound { revision: String, context: Option<String> },
    FileNotFound { resource: String, context: Option<String> },
    WriteRequired(Detail),
    AddressNotFound(Detail),
    Disconnected(Detail),
    InvalidNodeHierarchy(Detail),
    LinkNotFound(Detail),
    Maintenance(Detail),
    NodeNotFound(Detail),
    NoRemote(Detail),
    NotAuthenticated(Detail),
    NotAuthorized(Detail),
    NotConnected(Detail),
    NotFound(Detail),
    NotSupported(Detail),
    Oversized(Detail),
    PayloadNotFound(Detail),
    SlowDown(Detail),
    AlreadyLinked(Detail),
    BranchAdvanced(Detail),
    BranchAlreadyExists(Detail),
    BranchNotFound(Detail),
    Conflict(Detail),
    DeleteCurrent(Detail),
    DeleteDefault(Detail),
    DeleteProtected(Detail),
    Divergent(Detail),
    IdenticalMetadata(Detail),
    LayerNotFound(Detail),
    LinkPathNotFound(Detail),
    LocalModifications(Detail),
    LockNotFound(Detail),
    LockNotOwned(Detail),
    MaxHistorySearchDepth(Detail),
    NotALayer(Detail),
    NotALink(Detail),
    NothingStaged(Detail),
    RepositoryAlreadyExists(Detail),
    RepositoryNotFound(Detail),
    SharedStoreNotFound(Detail),
    TokenNotFound(Detail),
    MissingIdentity(Detail),
    /// A failure that none of the others names, with the error behind it.
    Internal { message: String, cause: Option<String> },
}

/// The caller-visible error of a read error.
pub open spec fn translation(e: ReadError) -> LoreError {
    if e is InvalidArguments || e is InvalidPath || e is InvalidAddress {
        LoreError::InvalidArguments
    } else if e is RevisionNotFound || e is NotFound {
        LoreError::NotFound
    } else if e is FileNotFound {
        LoreError::FileNotFound
    } else {
        LoreError::Internal
    }
}

impl ReadError {
    /// The error as callers of the library see it.
    pub fn translated(&self) -> (r: LoreError)
        ensures
            r == translation(*self),
    {
        match self {
            ReadError::InvalidArguments(_)
            | ReadError::InvalidPath(_)
            | ReadError::InvalidAddress(_) => LoreError::InvalidArguments,
            ReadError::RevisionNotFound { .. } | ReadError::NotFound(_) => LoreError::NotFound,
            ReadError::FileNotFound { .. } => LoreError::FileNotFound,
            _ => LoreError::Internal,
        }
    }
}

/// What to read a file from.
#[derive(Debug)]
pub struct ReadFileOptions {
    /// The revision to read at; the staged or else the current one when `None`.
    pub revision: Option<String>,
}

impl Clone for ReadFileOptions {
    fn clone(&self) -> (r: ReadFileOptions)
        ensures
            r == *self,
    {
        let revision = match &self.revision {
            Some(revision) => Some(revision.clone()),
            None => None,
        };
        ReadFileOptions { revision }
    }
}

/// One part of the content that a read delivers.
pub struct LoreFileReadEventData<A> {
    /// Address of the content.
    pub address: A,
    /// Byte offset of this payload within the file content.
    pub offset: u64,
    /// Total content size in bytes.
    pub size_content: u64,
    /// Payload bytes for this part of the content.
    pub bytes: Bytes,
}

/// A link to a node, as a revision's state gives it.
pub struct NodeLink<N> {
    /// Whether the link leads to a node.
    pub valid: bool,
    /// The node it leads to.
    pub node: N,
}

/// What a read needs to know of a node.
pub struct Node<A> {
    /// Whether the node is a file.
    pub is_file: bool,
    /// Size of the file's content in bytes.
    pub size: u64,
    /// Address of the file's content.
    pub address: A,
}

/// What [`read_file`] needs next, or how it ended.
#[allow(inconsistent_fields)]
pub enum ReadAction<S, N, A> {
    /// Turn the path that the user gave into one relative to the repository.
    /// `context` says what was being done, for the error of one that has none.
    ResolvePath { path: String, context: &'static str, next: AfterPath },
    /// Resolve a revision that the user named.
    ResolveRevision { revision: String, next: AfterRevision },
    /// Load the anchor of the current revision. `context` is for its error.
    LoadCurrentAnchor { context: &'static str, next: AfterAnchor },
    /// Load the revision that is staged, if any.
    LoadStagedRevision { next: AfterStaged<S> },
    /// Load the state of a revision. `context` is for its error.
    DeserializeState { signature: S, context: &'static str, next: AfterState<S> },
    /// Find the link for a path in the loaded state.
    FindNodeLink { path: String, next: AfterLink<S> },
    /// Load a node of the loaded state.
    LoadNode { node: N, next: AfterNode<S> },
    /// Send this one event: the read is complete.
    Emit { event: LoreFileReadEventData<A> },
    /// Go on as [`read_content`] of this address.
    ReadContent { address: A },
    /// The read failed.
    Fail { error: ReadError },
}

/// Waits for the relative path.
pub struct AfterPath {
    revision: Option<String>,
}

/// Waits for the signature of the named revision.
pub struct AfterRevision {
    path: String,
    revision: String,
}

/// Waits for the signature of the current revision.
pub struct AfterAnchor {
    path: String,
}

/// Waits for the signature of the staged revision.
pub struct AfterStaged<S> {
    path: String,
    current: S,
}

/// Waits for the state to be loaded.
pub struct AfterState<S> {
    path: String,
    signature: Ghost<S>,
}

/// Waits for the link of the path.
pub struct AfterLink<S> {
    path: String,
    signature: Ghost<S>,
}

/// Waits for the node of the path.
pub struct AfterNode<S> {
    path: String,
    signature: Ghost<S>,
}

/// Starts reading the file at a user's path.
pub fn read_file<S, N, A>(path: String, options: ReadFileOptions) -> (r: ReadAction<S, N, A>)
    ensures
        read_file_starts(path, options, r),
{
    ReadAction::ResolvePath {
        path,
        context: "resolving user path",
        next: AfterPath { revision: options.revision },
    }
}

/// Whether `r` is the first action of reading `path` with `options`.
pub open spec fn read_file_starts<S, N, A>(
    path: String,
    options: ReadFileOptions,
    r: ReadAction<S, N, A>,
) -> bool {
    &&& r matches ReadAction::ResolvePath { path: asked, context, next }
    &&& asked == path
    &&& context == "resolving user path"
    &&& next.revision() == options.revision
}

impl AfterPath {
    /// The revision that was asked for.
    pub closed spec fn revision(self) -> Option<String> {
        self.revision
    }

    /// Whether `r` is the action after `resolved`.
    pub open spec fn resumes_to<S, N, A>(
        self,
        resolved: Result<String, ReadError>,
        r: ReadAction<S, N, A>,
    ) -> bool {
        match resolved {
            Err(error) => r == (ReadAction::<S, N, A>::Fail { error }),
            Ok(path) => match self.revision() {
                Some(asked) => {
                    &&& r matches ReadAction::ResolveRevision { revision, next }
                    &&& revision == asked
                    &&& next.path() == path
                    &&& next.revision() == asked
                },
                None => {
                    &&& r matches ReadAction::LoadCurrentAnchor { context, next }
                    &&& context == "Failed to deserialize current revision anchor"
                    &&& next.path() == path
                },
            },
        }
    }

    /// Goes on with the relative path, or with why there is none.
    pub fn resume<S, N, A>(self, resolved: Result<String, ReadError>) -> (r: ReadAction<S, N, A>)
        ensures
            self.resumes_to(resolved, r),
    {
        match resolved {
            Err(error) => ReadAction::Fail { error },
            Ok(path) => match self.revision {
                Some(revision) => ReadAction::ResolveRevision {
                    revision: revision.clone(),
                    next: AfterRevision { path, revision },
                },
                None => ReadAction::LoadCurrentAnchor {
                    context: "Failed to deserialize current revision anchor",
                    next: AfterAnchor { path },
                },
            },
        }
    }
}

/// Whether `r` loads the state of a revision, to read a path of it.
pub open spec fn loads_state<S, N, A>(path: String, signature: S, r: ReadAction<S, N, A>) -> bool {
    &&& r matches ReadAction::DeserializeState { signature: asked, context, next }
    &&& asked == signature
    &&& context == "Failed to deserialize state"
    &&& next.path() == path
    &&& next.signature() == signature
}

fn load_state<S, N, A>(path: String, signature: S) -> (r: ReadAction<S, N, A>)
    ensures
        loads_state(path, signature, r),
{
    let next = AfterState { path, signature: Ghost(signature) };
    ReadAction::DeserializeState { signature, context: "Failed to deserialize state", next }
}

impl AfterRevision {
    /// The relative path being read.
    pub closed spec fn path(self) -> String {
        self.path
    }

    /// The revision that was asked for.
    pub closed spec fn revision(self) -> String {
        self.revision
    }

    /// Whether `r` is the action after `resolved`.
    pub open spec fn resumes_to<S, N, A>(self, resolved: Option<S>, r: ReadAction<S, N, A>) -> bool {
        match resolved {
            Some(found) => loads_state(self.path(), found, r),
            None => r == (ReadAction::<S, N, A>::Fail {
                error: ReadError::RevisionNotFound { revision: self.revision(), context: None },
            }),
        }
    }

    /// Goes on with the signature of the revision; `None` when it did not resolve.
    pub fn resume<S, N, A>(self, resolved: Option<S>) -> (r: ReadAction<S, N, A>)
        ensures
            self.resumes_to(resolved, r),
    {
        match resolved {
            Some(signature) => load_state(self.path, signature),
            None => ReadAction::Fail {
                error: ReadError::RevisionNotFound { revision: self.revision, context: None },
            },
        }
    }
}

impl AfterAnchor {
    /// The relative path being read.
    pub closed spec fn path(self) -> String {
        self.path
    }

    /// Whether `r` is the action after `loaded`.
    pub open spec fn resumes_to<S, N, A>(
        self,
        loaded: Result<S, ReadError>,
        r: ReadAction<S, N, A>,
    ) -> bool {
        match loaded {
            Ok(current) => {
                &&& r matches ReadAction::LoadStagedRevision { next }
                &&& next.path() == self.path()
                &&& next.current() == current
            },
            Err(error) => r == (ReadAction::<S, N, A>::Fail { error }),
        }
    }

    /// Goes on with the current revision, or with why it could not be loaded.
    pub fn resume<S, N, A>(self, loaded: Result<S, ReadError>) -> (r: ReadAction<S, N, A>)
        ensures
            self.resumes_to(loaded, r),
    {
        match loaded {
            Ok(current) => ReadAction::LoadStagedRevision {
                next: AfterStaged { path: self.path, current },
            },
            Err(error) => ReadAction::Fail { error },
        }
    }
}

/// The revision to read at when none is named: the staged one, and without one
/// the current.
pub open spec fn staged_or_current<S>(staged: Result<Option<S>, ()>, current: S) -> S {
    match staged {
        Ok(Some(staged)) => staged,
        _ => current,
    }
}

impl<S> AfterStaged<S> {
    /// The relative path being read.
    pub closed spec fn path(self) -> String {
        self.path
    }

    /// The current revision, read when nothing is staged.
    pub closed spec fn current(self) -> S {
        self.current
    }

    /// Whether `r` is the action after `loaded`.
    pub open spec fn resumes_to<N, A>(
        self,
        loaded: Result<Option<S>, ()>,
        r: ReadAction<S, N, A>,
    ) -> bool {
        loads_state(self.path(), staged_or_current(loaded, self.current()), r)
    }

    /// Goes on with the staged revision. One that could not be loaded counts
    /// as none.
    pub fn resume<N, A>(self, loaded: Result<Option<S>, ()>) -> (r: ReadAction<S, N, A>)
        ensures
            self.resumes_to(loaded, r),
    {
        let signature = match loaded {
            Ok(Some(staged)) => staged,
            _ => self.current,
        };
        load_state(self.path, signature)
    }
}

impl<S> AfterState<S> {
    /// The relative path being read.
    pub closed spec fn path(self) -> String {
        self.path
    }

    /// The revision whose state is being loaded.
    pub closed spec fn signature(self) -> S {
        self.signature@
    }

    /// Whether `r` is the action after `loaded`.
    pub open spec fn resumes_to<N, A>(
        self,
        loaded: Result<(), ReadError>,
        r: ReadAction<S, N, A>,
    ) -> bool {
        match loaded {
            Ok(_) => {
                &&& r matches ReadAction::FindNodeLink { path, next }
                &&& path == self.path()
                &&& next.path() == self.path()
                &&& next.signature() == self.signature()
            },
            Err(error) => r == (ReadAction::<S, N, A>::Fail { error }),
        }
    }

    /// Goes on once the state is loaded, or with why it is not.
    pub fn resume<N, A>(self, loaded: Result<(), ReadError>) -> (r: ReadAction<S, N, A>)
        ensures
            self.resumes_to(loaded, r),
    {
        match loaded {
            Ok(_) => ReadAction::FindNodeLink {
                path: self.path.clone(),
                next: AfterLink { path: self.path, signature: self.signature },
            },
            Err(error) => ReadAction::Fail { error },
        }
    }
}

impl<S> AfterLink<S> {
    /// The relative path being read.
    pub closed spec fn path(self) -> String {
        self.path
    }

    /// The revision whose state is loaded.
    pub closed spec fn signature(self) -> S {
        self.signature@
    }

    /// Whether `r` is the action after `found`.
    pub open spec fn resumes_to<N, A>(
        self,
        found: Option<NodeLink<N>>,
        r: ReadAction<S, N, A>,
    ) -> bool {
        match found {
            Some(link) if link.valid => {
                &&& r matches ReadAction::LoadNode { node, next }
                &&& node == link.node
                &&& next.path() == self.path()
                &&& next.signature() == self.signature()
            },
            _ => r == (ReadAction::<S, N, A>::Fail {
                error: ReadError::FileNotFound { resource: self.path(), context: None },
            }),
        }
    }

    /// Goes on with the link of the path; `None` when the state has none.
    pub fn resume<N, A>(self, found: Option<NodeLink<N>>) -> (r: ReadAction<S, N, A>)
        ensures
            self.resumes_to(found, r),
    {
        match found {
            Some(link) if link.valid => ReadAction::LoadNode {
                node: link.node,
                next: AfterNode { path: self.path, signature: self.signature },
            },
            _ => ReadAction::Fail { error: ReadError::FileNotFound { resource: self.path, context: None } },
        }
    }
}

impl<S> AfterNode<S> {
    /// The relative path being read.
    pub closed spec fn path(self) -> String {
        self.path
    }

    /// The revision whose state is loaded.
    pub closed spec fn signature(self) -> S {
        self.signature@
    }

    /// Whether `r` is the action after `loaded`.
    pub open spec fn resumes_to<N, A>(self, loaded: Option<Node<A>>, r: ReadAction<S, N, A>) -> bool {
        match loaded {
            Some(node) if node.is_file && node.size == 0 => {
                &&& r matches ReadAction::Emit { event }
                &&& is_empty_part(event, node.address)
            },
            Some(node) if node.is_file => r == (ReadAction::<S, N, A>::ReadContent {
                address: node.address,
            }),
            _ => r == (ReadAction::<S, N, A>::Fail {
                error: ReadError::FileNotFound { resource: self.path(), context: None },
            }),
        }
    }

    /// Goes on with the node of the path; `None` when it could not be loaded.
    ///
    /// An empty file is delivered as one empty event.
    pub fn resume<N, A>(self, loaded: Option<Node<A>>) -> (r: ReadAction<S, N, A>)
        ensures
            self.resumes_to(loaded, r),
    {
        match loaded {
            Some(node) if node.is_file => {
                if node.size == 0 {
                    ReadAction::Emit { event: emit(node.address, 0, 0, Bytes::new()) }
                } else {
                    ReadAction::ReadContent { address: node.address }
                }
            },
            _ => ReadAction::Fail { error: ReadError::FileNotFound { resource: self.path, context: None } },
        }
    }
}

/// Whether an event delivers this very `bytes` at `offset` of the content of
/// `address`.
pub open spec fn is_part<A>(
    event: LoreFileReadEventData<A>,
    address: A,
    offset: nat,
    size_content: u64,
    bytes: Bytes,
) -> bool {
    &&& event.address == address
    &&& event.offset == offset
    &&& event.size_content == size_content
    &&& event.bytes == bytes
}

/// Whether an event delivers the content of an empty file.
pub open spec fn is_empty_part<A>(event: LoreFileReadEventData<A>, address: A) -> bool {
    &&& is_part(event, address, 0, 0, event.bytes)
    &&& content(event.bytes) == Seq::<u8>::empty()
}

/// The event that delivers `bytes`.
fn emit<A>(address: A, offset: u64, size_content: u64, bytes: Bytes) -> (r: LoreFileReadEventData<A>)
    ensures
        is_part(r, address, offset as nat, size_content, bytes),
{
    LoreFileReadEventData { address, offset, size_content, bytes }
}

/// Starts reading the content of an address.
pub fn read_address<A>(address: A) -> (r: ContentOpening<A>)
    ensures
        r.address() == address,
{
    read_content(address)
}

/// Starts streaming the content of an address.
pub fn read_content<A>(address: A) -> (r: ContentOpening<A>)
    ensures
        r.address() == address,
{
    ContentOpening { address }
}

/// Waits for the content stream of an address to open.
pub struct ContentOpening<A> {
    address: A,
}

impl<A> ContentOpening<A> {
    /// The address being read.
    pub closed spec fn address(self) -> A {
        self.address
    }

    /// The address whose content stream is to be opened.
    pub fn to_open(&self) -> (r: &A)
        ensures
            *r == self.address(),
    {
        &self.address
    }

    /// What is being done, for the error of a stream that does not open.
    pub fn context(&self) -> (r: &'static str)
        ensures
            r == "reading immutable data",
    {
        "reading immutable data"
    }

    /// Goes on with the size of the content, or with why its stream did not open.
    pub fn opened(self, stream: Result<u64, ReadError>) -> (r: Result<ContentStream<A>, ReadError>)
        ensures
            match stream {
                Ok(size_content) => {
                    &&& r is Ok
                    &&& r->Ok_0.address() == self.address()
                    &&& r->Ok_0.size_content() == size_content
                    &&& r->Ok_0.delivered() == Seq::<u8>::empty()
                },
                Err(error) => r == Err::<ContentStream<A>, ReadError>(error),
            },
    {
        match stream {
            Ok(size_content) => Ok(
                ContentStream {
                    address: self.address,
                    size_content,
                    offset: 0,
                    delivered: Ghost(Seq::empty()),
                },
            ),
            Err(error) => Err(error),
        }
    }
}

/// A content stream, and how far it has been delivered.
pub struct ContentStream<A> {
    address: A,
    size_content: u64,
    offset: u64,
    delivered: Ghost<Seq<u8>>,
}

/// The report for a stream that ended elsewhere than at its size.
pub open spec fn short_stream_message(streamed: nat, expected: nat) -> Seq<char> {
    "streamed "@ + decimal(streamed) + " bytes, expected "@ + decimal(expected)
}

impl<A> ContentStream<A> {
    #[verifier::type_invariant]
    spec fn offset_is_what_was_delivered(self) -> bool {
        self.offset == self.delivered@.len()
    }

    /// The address being read.
    pub closed spec fn address(self) -> A {
        self.address
    }

    /// Size of the whole content in bytes.
    pub closed spec fn size_content(self) -> u64 {
        self.size_content
    }

    /// All bytes delivered so far, in order.
    pub closed spec fn delivered(self) -> Seq<u8> {
        self.delivered@
    }

    /// Whether delivering `chunk` gives the stream `r` and the event `event`.
    pub open spec fn delivers_to(
        self,
        chunk: Bytes,
        r: ContentStream<A>,
        event: LoreFileReadEventData<A>,
    ) -> bool {
        &&& r.address() == self.address()
        &&& r.size_content() == self.size_content()
        &&& r.delivered() == self.delivered() + content(chunk)
        &&& is_part(event, self.address(), self.delivered().len(), self.size_content(), chunk)
    }

    /// Ends the stream.
    ///
    /// The pipeline behind a stream reports a failure by ending it early, so a
    /// stream that did not deliver exactly its size is an error rather than a
    /// truncated success.
    pub fn finish(self) -> (r: Result<(), ReadError>)
        ensures
            r is Ok <==> self.delivered().len() == self.size_content(),
            r matches Err(e) ==> e is Internal && e->cause is None && e->message@
                == short_stream_message(self.delivered().len(), self.size_content() as nat),
    {
        proof {
            use_type_invariant(&self);
        }
        if self.offset != self.size_content {
            let mut message = "streamed ".to_owned();
            message.append(decimal_text(self.offset).as_str());
            message.append(" bytes, expected ");
            message.append(decimal_text(self.size_content).as_str());
            return Err(ReadError::Internal { message, cause: None });
        }
        Ok(())
    }
}

impl<A: Copy> ContentStream<A> {
    /// Delivers the next chunk, at the offset where the last one ended.
    pub fn deliver(self, chunk: Bytes) -> (r: (ContentStream<A>, LoreFileReadEventData<A>))
        requires
            self.delivered().len() + content(chunk).len() <= u64::MAX,
        ensures
            self.delivers_to(chunk, r.0, r.1),
    {
        proof {
            use_type_invariant(&self);
        }
        let len: u64 = chunk.len() as u64;
        let ghost delivered = self.delivered@ + content(chunk);
        let event = emit(self.address, self.offset, self.size_content, chunk);
        let stream = ContentStream {
            address: self.address,
            size_content: self.size_content,
            offset: self.offset + len,
            delivered: Ghost(delivered),
        };
        (stream, event)
    }

    /// Delivers the next chunk if its end is still an offset that 64 bits can
    /// hold, and hands the stream back unchanged if it is not.
    pub fn receive(self, chunk: Bytes) -> (r: Result<
        (ContentStream<A>, LoreFileReadEventData<A>),
        ContentStream<A>,
    >)
        ensures
            r is Ok <==> self.delivered().len() + content(chunk).len() <= u64::MAX,
            match r {
                Ok(parts) => self.delivers_to(chunk, parts.0, parts.1),
                Err(stream) => stream == self,
            },
    {
        proof {
            use_type_invariant(&self);
        }
        let len: u64 = chunk.len() as u64;
        if len <= u64::MAX - self.offset {
            Ok(self.deliver(chunk))
        } else {
            Err(self)
        }
    }
}

/// Whether `streams` are the stages of one stream from its opening on, and
/// `events` what each stage delivered to come to the next.
pub open spec fn is_delivery<A>(
    streams: Seq<ContentStream<A>>,
    events: Seq<LoreFileReadEventData<A>>,
) -> bool {
    &&& streams.len() == events.len() + 1
    &&& streams[0].delivered() == Seq::<u8>::empty()
    &&& forall|i: int|
        0 <= i < events.len() ==> (#[trigger] streams[i]).delivers_to(
            events[i].bytes,
            streams[i + 1],
            events[i],
        )
}

/// The bytes of all of `events`, in order.
pub open spec fn joined<A>(events: Seq<LoreFileReadEventData<A>>) -> Seq<u8>
    decreases events.len(),
{
    if events.len() == 0 {
        Seq::empty()
    } else {
        joined(events.drop_last()) + content(events.last().bytes)
    }
}

/// What a stream has delivered is what its events hold, in order. Each event
/// says where in it its bytes stand, and they all give the address and the size
/// of the stream.
pub proof fn events_are_the_content<A>(
    streams: Seq<ContentStream<A>>,
    events: Seq<LoreFileReadEventData<A>>,
)
    requires
        is_delivery(streams, events),
    ensures
        streams.last().delivered() == joined(events),
        streams.last().address() == streams[0].address(),
        streams.last().size_content() == streams[0].size_content(),
        forall|i: int|
            0 <= i < events.len() ==> {
                let event = #[trigger] events[i];
                let bytes = content(event.bytes);
                &&& event.address == streams[0].address()
                &&& event.size_content == streams[0].size_content()
                &&& event.offset + bytes.len() <= joined(events).len()
                &&& joined(events).subrange(event.offset as int, event.offset + bytes.len())
                    == bytes
            },
    decreases events.len(),
{
    if events.len() > 0 {
        let n = events.len() - 1;
        let fewer = events.drop_last();
        let before = streams.drop_last();
        assert forall|i: int| 0 <= i < fewer.len() implies (#[trigger] before[i]).delivers_to(
            fewer[i].bytes,
            before[i + 1],
            fewer[i],
        ) by {
            assert(streams[i].delivers_to(events[i].bytes, streams[i + 1], events[i]));
        }
        events_are_the_content(before, fewer);
        assert(streams[n].delivers_to(events[n].bytes, streams[n + 1], events[n]));
        assert(before.last() == streams[n]);
        assert forall|i: int| 0 <= i < events.len() implies {
            let event = #[trigger] events[i];
            let bytes = content(event.bytes);
            &&& event.address == streams[0].address()
            &&& event.size_content == streams[0].size_content()
            &&& event.offset + bytes.len() <= joined(events).len()
            &&& joined(events).subrange(event.offset as int, event.offset + bytes.len()) == bytes
        } by {
            let event = events[i];
            let bytes = content(event.bytes);
            if i < n {
                assert(fewer[i] == event);
                assert(joined(events).subrange(event.offset as int, event.offset + bytes.len())
                    =~= joined(fewer).subrange(event.offset as int, event.offset + bytes.len()));
            } else {
                assert(joined(events).subrange(event.offset as int, event.offset + bytes.len())
                    =~= bytes);
            }
        }
    }
}

/// The first event of a stream stands at the start of the content, and each
/// other one where the event before it ends.
pub proof fn events_are_contiguous<A>(
    streams: Seq<ContentStream<A>>,
    events: Seq<LoreFileReadEventData<A>>,
    i: int,
)
    requires
        is_delivery(streams, events),
        0 <= i < events.len(),
    ensures
        i == 0 ==> events[i].offset == 0,
        i > 0 ==> events[i].offset == events[i - 1].offset + content(events[i - 1].bytes).len(),
{
    assert(streams[i].delivers_to(events[i].bytes, streams[i + 1], events[i]));
    if i > 0 {
        let j = i - 1;
        assert(streams[j].delivers_to(events[j].bytes, streams[j + 1], events[j]));
    }
}

/// Everything outside that reading a file asks, as answers to its questions.
#[verifier::reject_recursive_types(S)]
#[verifier::reject_recursive_types(N)]
pub struct ReadWorld<S, N, A> {
    /// A user's path, made relative to the repository.
    pub relative: spec_fn(String) -> Result<String, ReadError>,
    /// The signature of a named revision.
    pub revision: spec_fn(String) -> Option<S>,
    /// The current revision.
    pub current: Result<S, ReadError>,
    /// The staged revision.
    pub staged: Result<Option<S>, ()>,
    /// Whether the state of a revision loads.
    pub state: spec_fn(S) -> Result<(), ReadError>,
    /// The link of a path in the state of a revision.
    pub link: spec_fn(S, String) -> Option<NodeLink<N>>,
    /// A node in the state of a revision.
    pub node: spec_fn(S, N) -> Option<Node<A>>,
}

/// How reading a file ends.
pub enum ReadOutcome<A> {
    /// With an error.
    Failed(ReadError),
    /// With one empty event for the content of an address.
    Empty(A),
    /// With the content of an address.
    Content(A),
}

impl<S, N, A> ReadWorld<S, N, A> {
    /// The revision that a read is of.
    pub open spec fn signature(self, revision: Option<String>) -> Result<S, ReadError> {
        match revision {
            Some(revision) => match (self.revision)(revision) {
                Some(signature) => Ok(signature),
                None => Err(ReadError::RevisionNotFound { revision, context: None }),
            },
            None => match self.current {
                Ok(current) => Ok(staged_or_current(self.staged, current)),
                Err(error) => Err(error),
            },
        }
    }

    /// What the state of a revision holds at a relative path: the file there,
    /// if there is one.
    pub open spec fn file(self, signature: S, path: String) -> Option<Node<A>> {
        match (self.link)(signature, path) {
            Some(link) if link.valid => match (self.node)(signature, link.node) {
                Some(node) if node.is_file => Some(node),
                _ => None,
            },
            _ => None,
        }
    }

    /// How reading the file at a relative path of a revision's loaded state ends.
    pub open spec fn file_outcome(self, signature: S, path: String) -> ReadOutcome<A> {
        match self.file(signature, path) {
            Some(node) => if node.size == 0 {
                ReadOutcome::Empty(node.address)
            } else {
                ReadOutcome::Content(node.address)
            },
            None => ReadOutcome::Failed(ReadError::FileNotFound { resource: path, context: None }),
        }
    }

    /// How reading the file at a relative path of a revision ends.
    pub open spec fn path_outcome(self, signature: Result<S, ReadError>, path: String) -> ReadOutcome<
        A,
    > {
        match signature {
            Err(error) => ReadOutcome::Failed(error),
            Ok(signature) => match (self.state)(signature) {
                Err(error) => ReadOutcome::Failed(error),
                Ok(_) => self.file_outcome(signature, path),
            },
        }
    }

    /// How reading the file at a user's path ends.
    pub open spec fn outcome(self, path: String, options: ReadFileOptions) -> ReadOutcome<A> {
        match (self.relative)(path) {
            Err(error) => ReadOutcome::Failed(error),
            Ok(path) => self.path_outcome(self.signature(options.revision), path),
        }
    }

    /// Whether `b` is the action after `a` in this world.
    pub open spec fn follows(self, a: ReadAction<S, N, A>, b: ReadAction<S, N, A>) -> bool {
        match a {
            ReadAction::ResolvePath { path, next, .. } => next.resumes_to((self.relative)(path), b),
            ReadAction::ResolveRevision { revision, next } => next.resumes_to(
                (self.revision)(revision),
                b,
            ),
            ReadAction::LoadCurrentAnchor { next, .. } => next.resumes_to(self.current, b),
            ReadAction::LoadStagedRevision { next } => next.resumes_to(self.staged, b),
            ReadAction::DeserializeState { signature, next, .. } => next.resumes_to(
                (self.state)(signature),
                b,
            ),
            ReadAction::FindNodeLink { path, next } => next.resumes_to(
                (self.link)(next.signature(), path),
                b,
            ),
            ReadAction::LoadNode { node, next } => next.resumes_to(
                (self.node)(next.signature(), node),
                b,
            ),
            _ => false,
        }
    }

    /// Whether `run` is the actions of reading a file in this world, in order.
    pub open spec fn is_run(
        self,
        path: String,
        options: ReadFileOptions,
        run: Seq<ReadAction<S, N, A>>,
    ) -> bool {
        &&& run.len() > 0
        &&& read_file_starts(path, options, run[0])
        &&& forall|i: int| 0 <= i < run.len() - 1 ==> self.follows(#[trigger] run[i], run[i + 1])
    }

    /// The outcome that an action is on the way to.
    spec fn destination(self, a: ReadAction<S, N, A>) -> ReadOutcome<A> {
        match a {
            ReadAction::ResolvePath { path, next, .. } => self.outcome(
                path,
                ReadFileOptions { revision: next.revision() },
            ),
            ReadAction::ResolveRevision { revision, next } => self.path_outcome(
                self.signature(Some(revision)),
                next.path(),
            ),
            ReadAction::LoadCurrentAnchor { next, .. } => self.path_outcome(
                self.signature(None),
                next.path(),
            ),
            ReadAction::LoadStagedRevision { next } => self.path_outcome(
                Ok(staged_or_current(self.staged, next.current())),
                next.path(),
            ),
            ReadAction::DeserializeState { signature, next, .. } => self.path_outcome(
                Ok(signature),
                next.path(),
            ),
            ReadAction::FindNodeLink { path, next } => self.file_outcome(next.signature(), path),
            ReadAction::LoadNode { node, next } => match (self.node)(next.signature(), node) {
                Some(node) if node.is_file => if node.size == 0 {
                    ReadOutcome::Empty(node.address)
                } else {
                    ReadOutcome::Content(node.address)
                },
                _ => ReadOutcome::Failed(ReadError::FileNotFound { resource: next.path(), context: None }),
            },
            _ => ended(a),
        }
    }

    /// What an action's continuation knows agrees with the action itself.
    spec fn consistent(self, a: ReadAction<S, N, A>) -> bool {
        match a {
            ReadAction::ResolveRevision { revision, next } => next.revision() == revision,
            ReadAction::DeserializeState { signature, next, .. } => next.signature() == signature,
            ReadAction::FindNodeLink { path, next } => next.path() == path,
            ReadAction::Emit { event } => is_empty_part(event, event.address),
            _ => true,
        }
    }

    proof fn follows_keeps_destination(self, a: ReadAction<S, N, A>, b: ReadAction<S, N, A>)
        requires
            self.consistent(a),
            self.follows(a, b),
        ensures
            self.consistent(b),
            self.destination(b) == self.destination(a),
            steps_left(b) < steps_left(a),
    {
    }

    /// A run that has ended, ended as [`ReadWorld::outcome`] says, and an event
    /// that it ended with is an empty one.
    pub proof fn run_ends_in_outcome(
        self,
        path: String,
        options: ReadFileOptions,
        run: Seq<ReadAction<S, N, A>>,
    )
        requires
            self.is_run(path, options, run),
            is_end(run.last()),
        ensures
            ended(run.last()) == self.outcome(path, options),
            run.last() matches ReadAction::Emit { event } ==> is_empty_part(event, event.address),
    {
        self.run_keeps_destination(path, options, run, run.len() - 1);
    }

    /// A run is at most seven actions long.
    pub proof fn run_is_short(
        self,
        path: String,
        options: ReadFileOptions,
        run: Seq<ReadAction<S, N, A>>,
    )
        requires
            self.is_run(path, options, run),
        ensures
            run.len() <= 7,
    {
        self.run_keeps_destination(path, options, run, run.len() - 1);
    }

    proof fn run_keeps_destination(
        self,
        path: String,
        options: ReadFileOptions,
        run: Seq<ReadAction<S, N, A>>,
        i: int,
    )
        requires
            self.is_run(path, options, run),
            0 <= i < run.len(),
        ensures
            self.consistent(run[i]),
            self.destination(run[i]) == self.outcome(path, options),
            0 <= steps_left(run[i]) <= 6 - i,
        decreases i,
    {
        if i > 0 {
            self.run_keeps_destination(path, options, run, i - 1);
            assert(self.follows(run[i - 1], run[i - 1 + 1]));
            self.follows_keeps_destination(run[i - 1], run[i]);
        }
    }
}

/// How many actions can still follow.
spec fn steps_left<S, N, A>(a: ReadAction<S, N, A>) -> int {
    match a {
        ReadAction::ResolvePath { .. } => 6,
        ReadAction::ResolveRevision { .. } => 5,
        ReadAction::LoadCurrentAnchor { .. } => 5,
        ReadAction::LoadStagedRevision { .. } => 4,
        ReadAction::DeserializeState { .. } => 3,
        ReadAction::FindNodeLink { .. } => 2,
        ReadAction::LoadNode { .. } => 1,
        _ => 0,
    }
}

/// Whether nothing follows an action.
pub open spec fn is_end<S, N, A>(a: ReadAction<S, N, A>) -> bool {
    a is Emit || a is ReadContent || a is Fail
}

/// How a read that has come to an [`is_end`] action ended.
pub open spec fn ended<S, N, A>(a: ReadAction<S, N, A>) -> ReadOutcome<A> {
    match a {
        ReadAction::Emit { event } => ReadOutcome::Empty(event.address),
        ReadAction::ReadContent { address } => ReadOutcome::Content(address),
        ReadAction::Fail { error } => ReadOutcome::Failed(error),
        _ => arbitrary(),
    }
}

} // verus!
