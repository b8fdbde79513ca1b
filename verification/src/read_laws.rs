//! What reading comes to, from what its caller passed.
use bytes::Bytes;
use vstd::prelude::*;
use crate::bytes_spec::content;
use crate::read::{
    joined, read_address, read_content, read_file, AfterAnchor, AfterLink, AfterNode, AfterPath,
    AfterRevision, AfterStaged, AfterState, ContentOpening, ContentStream, LoreError,
    LoreFileReadEventData, ReadAction, ReadError, ReadFileOptions, ReadWorld,
};
use crate::text::decimal;

verus! {

impl<S, N, A> ReadWorld<S, N, A> {
    /// Whether the actions of `run` follow each other in this world.
    pub open spec fn is_chain(self, run: Seq<ReadAction<S, N, A>>) -> bool {
        forall|i: int| 0 <= i < run.len() - 1 ==> self.follows(#[trigger] run[i], run[i + 1])
    }

    /// The revision that is read: the one that was named, else the staged one, else
    /// the current one.
    spec fn revision_read(self, options: ReadFileOptions) -> Result<S, ReadError> {
        match options.revision {
            Some(revision) => match (self.revision)(revision) {
                Some(signature) => Ok(signature),
                None => Err(ReadError::RevisionNotFound { revision, context: None }),
            },
            None => match self.current {
                Err(error) => Err(error),
                Ok(current) => match self.staged {
                    Ok(Some(staged)) => Ok(staged),
                    _ => Ok(current),
                },
            },
        }
    }

    /// What holds of every action of a read.
    spec fn on_course(
        self,
        path: String,
        options: ReadFileOptions,
        a: ReadAction<S, N, A>,
    ) -> bool {
        let relative = (self.relative)(path);
        let signature = self.revision_read(options);
        match a {
            ReadAction::ResolvePath { path: asked, context, next } => {
                &&& asked == path
                &&& context == "resolving user path"
                &&& next.revision() == options.revision
            },
            ReadAction::ResolveRevision { revision, next } => {
                &&& options.revision == Some(revision)
                &&& next.revision() == revision
                &&& relative == Ok::<String, ReadError>(next.path())
            },
            ReadAction::LoadCurrentAnchor { context, next } => {
                &&& context == "Failed to deserialize current revision anchor"
                &&& options.revision is None
                &&& relative == Ok::<String, ReadError>(next.path())
            },
            ReadAction::LoadStagedRevision { next } => {
                &&& options.revision is None
                &&& relative == Ok::<String, ReadError>(next.path())
                &&& self.current == Ok::<S, ReadError>(next.current())
            },
            ReadAction::DeserializeState { signature: asked, context, next } => {
                &&& context == "Failed to deserialize state"
                &&& relative == Ok::<String, ReadError>(next.path())
                &&& signature == Ok::<S, ReadError>(asked)
                &&& next.signature() == asked
            },
            ReadAction::FindNodeLink { path: asked, next } => {
                &&& relative == Ok::<String, ReadError>(asked)
                &&& next.path() == asked
                &&& signature == Ok::<S, ReadError>(next.signature())
                &&& (self.state)(next.signature()) is Ok
            },
            ReadAction::LoadNode { node, next } => {
                &&& relative == Ok::<String, ReadError>(next.path())
                &&& signature == Ok::<S, ReadError>(next.signature())
                &&& (self.state)(next.signature()) is Ok
                &&& (self.link)(next.signature(), next.path()) matches Some(link)
                &&& link.valid
                &&& link.node == node
            },
            _ => self.is_owed(path, options, a),
        }
    }

    /// Whether a read may end with the action `end`.
    spec fn is_owed(
        self,
        path: String,
        options: ReadFileOptions,
        end: ReadAction<S, N, A>,
    ) -> bool {
        let relative = (self.relative)(path);
        let signature = self.revision_read(options);
        let state = (self.state)(signature->Ok_0);
        let link = (self.link)(signature->Ok_0, relative->Ok_0);
        let node = (self.node)(signature->Ok_0, link->Some_0.node);
        if relative is Err {
            end == (ReadAction::<S, N, A>::Fail { error: relative->Err_0 })
        } else if signature is Err {
            end == (ReadAction::<S, N, A>::Fail { error: signature->Err_0 })
        } else if state is Err {
            end == (ReadAction::<S, N, A>::Fail { error: state->Err_0 })
        } else if link is None || !link->Some_0.valid || node is None || !node->Some_0.is_file {
            end == (ReadAction::<S, N, A>::Fail {
                error: ReadError::FileNotFound { resource: relative->Ok_0, context: None },
            })
        } else if node->Some_0.size == 0 {
            &&& end matches ReadAction::Emit { event }
            &&& event.address == node->Some_0.address
            &&& event.offset == 0
            &&& event.size_content == 0
            &&& content(event.bytes) == Seq::<u8>::empty()
        } else {
            end == (ReadAction::<S, N, A>::ReadContent { address: node->Some_0.address })
        }
    }

    proof fn read_stays_on_course(
        self,
        path: String,
        options: ReadFileOptions,
        run: Seq<ReadAction<S, N, A>>,
        i: int,
    )
        requires
            call_ensures(read_file::<S, N, A>, (path, options), run[0]),
            self.is_chain(run),
            0 <= i < run.len(),
        ensures
            self.on_course(path, options, run[i]),
        decreases i,
    {
        if i > 0 {
            self.read_stays_on_course(path, options, run, i - 1);
            assert(self.follows(run[i - 1], run[i - 1 + 1]));
        }
    }

    /// What a read asks of the repository, it asks for the path and the revision that
    /// were passed: the path as the user gave it and then as it was resolved, the named
    /// revision or none, and the state, the link and the node of the revision that is
    /// read. Each kind of failure has its own context.
    pub proof fn asks_for_what_was_passed(
        self,
        path: String,
        options: ReadFileOptions,
        run: Seq<ReadAction<S, N, A>>,
        i: int,
    )
        requires
            call_ensures(read_file::<S, N, A>, (path, options), run[0]),
            self.is_chain(run),
            0 <= i < run.len(),
        ensures
            ({
                let named = (self.revision)(options.revision->Some_0);
                let signature = if options.revision is Some {
                    named
                } else if self.staged is Ok && self.staged->Ok_0 is Some {
                    self.staged->Ok_0
                } else {
                    self.current.ok()
                };
                match run[i] {
                    ReadAction::ResolvePath { path: asked, context, next } => {
                        &&& asked == path
                        &&& context == "resolving user path"
                    },
                    ReadAction::ResolveRevision { revision, next } => options.revision == Some(
                        revision,
                    ),
                    ReadAction::LoadCurrentAnchor { context, next } => {
                        &&& options.revision is None
                        &&& context == "Failed to deserialize current revision anchor"
                    },
                    ReadAction::LoadStagedRevision { next } => {
                        &&& options.revision is None
                        &&& self.current is Ok
                    },
                    ReadAction::DeserializeState { signature: asked, context, next } => {
                        &&& signature == Some(asked)
                        &&& context == "Failed to deserialize state"
                    },
                    ReadAction::FindNodeLink { path: asked, next } => {
                        &&& (self.relative)(path) == Ok::<String, ReadError>(asked)
                        &&& signature is Some
                        &&& (self.state)(signature->Some_0) is Ok
                    },
                    ReadAction::LoadNode { node, next } => {
                        &&& (self.relative)(path) is Ok
                        &&& signature is Some
                        &&& (self.link)(signature->Some_0, (self.relative)(path)->Ok_0) matches Some(
                            link,
                        )
                        &&& link.valid
                        &&& link.node == node
                    },
                    _ => i > 0,
                }
            }),
    {
        self.read_stays_on_course(path, options, run, i);
    }

    /// How a read ends, from what was passed and what stands outside: with the content
    /// of the file at the path in the revision that is read, with one empty event for an
    /// empty file, and otherwise with the failure that says what is missing.
    pub proof fn ends_as_owed(
        self,
        path: String,
        options: ReadFileOptions,
        run: Seq<ReadAction<S, N, A>>,
    )
        requires
            run.len() > 0,
            call_ensures(read_file::<S, N, A>, (path, options), run[0]),
            self.is_chain(run),
            run.last() is Emit || run.last() is ReadContent || run.last() is Fail,
        ensures
            ({
                let relative = (self.relative)(path);
                let named = (self.revision)(options.revision->Some_0);
                let signature = if options.revision is Some {
                    named->Some_0
                } else if self.staged is Ok && self.staged->Ok_0 is Some {
                    self.staged->Ok_0->Some_0
                } else {
                    self.current->Ok_0
                };
                let state = (self.state)(signature);
                let link = (self.link)(signature, relative->Ok_0);
                let node = (self.node)(signature, link->Some_0.node);
                if relative is Err {
                    run.last() == (ReadAction::<S, N, A>::Fail { error: relative->Err_0 })
                } else if options.revision is Some && named is None {
                    &&& run.last() matches ReadAction::Fail { error }
                    &&& error matches ReadError::RevisionNotFound { revision, context }
                    &&& Some(revision) == options.revision
                    &&& context is None
                } else if options.revision is None && self.current is Err {
                    run.last() == (ReadAction::<S, N, A>::Fail { error: self.current->Err_0 })
                } else if state is Err {
                    run.last() == (ReadAction::<S, N, A>::Fail { error: state->Err_0 })
                } else if link is Some && link->Some_0.valid && node is Some
                    && node->Some_0.is_file {
                    if node->Some_0.size > 0 {
                        run.last() == (ReadAction::<S, N, A>::ReadContent {
                            address: node->Some_0.address,
                        })
                    } else {
                        &&& run.last() matches ReadAction::Emit { event }
                        &&& event.address == node->Some_0.address
                        &&& event.offset == 0
                        &&& event.size_content == 0
                        &&& content(event.bytes).len() == 0
                    }
                } else {
                    &&& run.last() matches ReadAction::Fail { error }
                    &&& error matches ReadError::FileNotFound { resource, context }
                    &&& resource == relative->Ok_0
                    &&& context is None
                }
            }),
    {
        self.read_stays_on_course(path, options, run, run.len() - 1);
    }

    /// What a call of `resume` gives, with the answer of this world, is what follows
    /// in it.
    pub proof fn resuming_follows(self, a: ReadAction<S, N, A>, r: ReadAction<S, N, A>)
        requires
            match a {
                ReadAction::ResolvePath { path, context, next } => call_ensures(
                    AfterPath::resume::<S, N, A>,
                    (next, (self.relative)(path)),
                    r,
                ),
                ReadAction::ResolveRevision { revision, next } => call_ensures(
                    AfterRevision::resume::<S, N, A>,
                    (next, (self.revision)(revision)),
                    r,
                ),
                ReadAction::LoadCurrentAnchor { context, next } => call_ensures(
                    AfterAnchor::resume::<S, N, A>,
                    (next, self.current),
                    r,
                ),
                ReadAction::LoadStagedRevision { next } => call_ensures(
                    AfterStaged::<S>::resume::<N, A>,
                    (next, self.staged),
                    r,
                ),
                ReadAction::DeserializeState { signature, context, next } => call_ensures(
                    AfterState::<S>::resume::<N, A>,
                    (next, (self.state)(signature)),
                    r,
                ),
                ReadAction::FindNodeLink { path, next } => call_ensures(
                    AfterLink::<S>::resume::<N, A>,
                    (next, (self.link)(next.signature(), path)),
                    r,
                ),
                ReadAction::LoadNode { node, next } => call_ensures(
                    AfterNode::<S>::resume::<N, A>,
                    (next, (self.node)(next.signature(), node)),
                    r,
                ),
                _ => false,
            },
        ensures
            self.follows(a, r),
    {
    }
}

/// The bytes of all of `chunks`, in order.
pub open spec fn chunks_joined(chunks: Seq<Bytes>) -> Seq<u8>
    decreases chunks.len(),
{
    if chunks.len() == 0 {
        Seq::empty()
    } else {
        chunks_joined(chunks.drop_last()) + content(chunks.last())
    }
}

/// Whether the content of `address` was asked for and its stream opened with a size,
/// and then was handed `chunks` one by one, each of which gave an event.
pub open spec fn is_streamed<A: Copy>(
    address: A,
    size: u64,
    chunks: Seq<Bytes>,
    opening: ContentOpening<A>,
    streams: Seq<ContentStream<A>>,
    events: Seq<LoreFileReadEventData<A>>,
) -> bool {
    &&& call_ensures(read_content::<A>, (address,), opening) || call_ensures(
        read_address::<A>,
        (address,),
        opening,
    )
    &&& streams.len() == chunks.len() + 1
    &&& events.len() == chunks.len()
    &&& call_ensures(
        ContentOpening::<A>::opened,
        (opening, Ok::<u64, ReadError>(size)),
        Ok::<ContentStream<A>, ReadError>(streams[0]),
    )
    &&& forall|i: int|
        0 <= i < chunks.len() ==> {
            ||| call_ensures(
                ContentStream::<A>::receive,
                (#[trigger] streams[i], chunks[i]),
                Ok::<(ContentStream<A>, LoreFileReadEventData<A>), ContentStream<A>>(
                    (streams[i + 1], events[i]),
                ),
            )
            ||| call_ensures(
                ContentStream::<A>::deliver,
                (streams[i], chunks[i]),
                (streams[i + 1], events[i]),
            )
        }
}

proof fn streamed_so_far<A: Copy>(
    address: A,
    size: u64,
    chunks: Seq<Bytes>,
    opening: ContentOpening<A>,
    streams: Seq<ContentStream<A>>,
    events: Seq<LoreFileReadEventData<A>>,
    i: int,
)
    requires
        is_streamed(address, size, chunks, opening, streams, events),
        0 <= i <= chunks.len(),
    ensures
        streams[i].address() == address,
        streams[i].size_content() == size,
        streams[i].delivered() == chunks_joined(chunks.take(i)),
    decreases i,
{
    if i > 0 {
        streamed_so_far(address, size, chunks, opening, streams, events, i - 1);
        assert(streams[i - 1].delivers_to(chunks[i - 1], streams[i - 1 + 1], events[i - 1]));
        assert(chunks.take(i).drop_last() =~= chunks.take(i - 1));
    } else {
        assert(chunks.take(0) =~= Seq::<Bytes>::empty());
    }
}

/// Every chunk that a stream is handed goes out as it came, in one event: with the
/// address and the size of the content, and at the offset where the chunks before it
/// end.
pub proof fn chunks_go_out_as_they_came<A: Copy>(
    address: A,
    size: u64,
    chunks: Seq<Bytes>,
    opening: ContentOpening<A>,
    streams: Seq<ContentStream<A>>,
    events: Seq<LoreFileReadEventData<A>>,
    i: int,
)
    requires
        is_streamed(address, size, chunks, opening, streams, events),
        0 <= i < chunks.len(),
    ensures
        events[i].bytes == chunks[i],
        content(events[i].bytes) == content(chunks[i]),
        events[i].address == address,
        events[i].size_content == size,
        events[i].offset == chunks_joined(chunks.take(i)).len(),
{
    streamed_so_far(address, size, chunks, opening, streams, events, i);
    assert(streams[i].delivers_to(chunks[i], streams[i + 1], events[i]));
}

/// The bytes of the events, joined, are the bytes of the chunks, joined.
pub proof fn nothing_is_lost<A: Copy>(
    address: A,
    size: u64,
    chunks: Seq<Bytes>,
    opening: ContentOpening<A>,
    streams: Seq<ContentStream<A>>,
    events: Seq<LoreFileReadEventData<A>>,
)
    requires
        is_streamed(address, size, chunks, opening, streams, events),
    ensures
        joined(events) == chunks_joined(chunks),
        streams.last().delivered() == chunks_joined(chunks),
{
    assert forall|i: int| 0 <= i < chunks.len() implies #[trigger] content(events[i].bytes)
        == content(chunks[i]) by {
        chunks_go_out_as_they_came(address, size, chunks, opening, streams, events, i);
    }
    same_when_joined(chunks, events);
    streamed_so_far(address, size, chunks, opening, streams, events, chunks.len() as int);
    assert(chunks.take(chunks.len() as int) =~= chunks);
}

proof fn same_when_joined<A>(chunks: Seq<Bytes>, events: Seq<LoreFileReadEventData<A>>)
    requires
        events.len() == chunks.len(),
        forall|i: int|
            0 <= i < chunks.len() ==> #[trigger] content(events[i].bytes) == content(chunks[i]),
    ensures
        joined(events) == chunks_joined(chunks),
    decreases chunks.len(),
{
    if chunks.len() > 0 {
        let last = chunks.len() - 1;
        assert forall|i: int| 0 <= i < last implies #[trigger] content(
            events.drop_last()[i].bytes,
        ) == content(chunks.drop_last()[i]) by {
            assert(content(events[i].bytes) == content(chunks[i]));
        }
        same_when_joined(chunks.drop_last(), events.drop_last());
        assert(content(events[last].bytes) == content(chunks[last]));
    }
}

/// A read of content succeeds exactly where its chunks hold as many bytes as the
/// content has; its events then hold them all. Otherwise it fails, and says how many
/// bytes came and how many there are.
pub proof fn finished_exactly_at_the_size<A: Copy>(
    address: A,
    size: u64,
    chunks: Seq<Bytes>,
    opening: ContentOpening<A>,
    streams: Seq<ContentStream<A>>,
    events: Seq<LoreFileReadEventData<A>>,
    result: Result<(), ReadError>,
)
    requires
        is_streamed(address, size, chunks, opening, streams, events),
        call_ensures(ContentStream::<A>::finish, (streams.last(),), result),
    ensures
        result is Ok <==> chunks_joined(chunks).len() == size,
        result is Ok ==> joined(events).len() == size,
        result matches Err(error) ==> {
            &&& error matches ReadError::Internal { message, cause }
            &&& cause is None
            &&& message@ == "streamed "@ + decimal(chunks_joined(chunks).len())
                + " bytes, expected "@ + decimal(size as nat)
        },
{
    nothing_is_lost(address, size, chunks, opening, streams, events);
    streamed_so_far(address, size, chunks, opening, streams, events, chunks.len() as int);
}

/// A stream takes every chunk whose end is an offset that 64 bits can hold, and no
/// other.
pub proof fn every_chunk_that_fits_is_taken<A: Copy>(
    address: A,
    size: u64,
    chunks: Seq<Bytes>,
    opening: ContentOpening<A>,
    streams: Seq<ContentStream<A>>,
    events: Seq<LoreFileReadEventData<A>>,
    chunk: Bytes,
    r: Result<(ContentStream<A>, LoreFileReadEventData<A>), ContentStream<A>>,
)
    requires
        is_streamed(address, size, chunks, opening, streams, events),
        call_ensures(ContentStream::<A>::receive, (streams.last(), chunk), r),
    ensures
        r is Ok <==> chunks_joined(chunks).len() + content(chunk).len() <= u64::MAX,
        r matches Err(unchanged) ==> unchanged == streams.last(),
{
    nothing_is_lost(address, size, chunks, opening, streams, events);
}

/// The stream that is to be opened is that of the address which was passed. One that
/// does not open, fails the read with the very error.
pub proof fn the_passed_address_is_opened<A>(
    address: A,
    opening: ContentOpening<A>,
    asked: &A,
    context: &'static str,
    opened: Result<u64, ReadError>,
    r: Result<ContentStream<A>, ReadError>,
)
    requires
        call_ensures(read_content::<A>, (address,), opening) || call_ensures(
            read_address::<A>,
            (address,),
            opening,
        ),
        call_ensures(ContentOpening::<A>::to_open, (&opening,), asked),
        call_ensures(ContentOpening::<A>::context, (&opening,), context),
        call_ensures(ContentOpening::<A>::opened, (opening, opened), r),
    ensures
        *asked == address,
        context@ == "reading immutable data"@,
        r is Ok <==> opened is Ok,
        opened matches Err(error) ==> r == Err::<ContentStream<A>, ReadError>(error),
{
}

/// What callers see of a read error: wrong arguments, paths and addresses as invalid
/// arguments, a revision or anything else that is not found as not found, a file that
/// is not found as just that, and every other error as an internal one.
pub proof fn errors_are_shown_by_their_sort(error: &ReadError, shown: LoreError)
    requires
        call_ensures(ReadError::translated, (error,), shown),
    ensures
        shown is InvalidArguments <==> (error is InvalidArguments || error is InvalidPath || error
            is InvalidAddress),
        shown is NotFound <==> (error is RevisionNotFound || error is NotFound),
        shown is FileNotFound <==> error is FileNotFound,
        shown is Internal <==> !(error is InvalidArguments || error is InvalidPath || error
            is InvalidAddress || error is RevisionNotFound || error is NotFound || error
            is FileNotFound),
{
}

/// A copy of the options is the same options.
pub proof fn copies_are_the_same(options: &ReadFileOptions, copy: ReadFileOptions)
    requires
        call_ensures(<ReadFileOptions as Clone>::clone, (options,), copy),
    ensures
        copy == *options,
{
}

} // verus!
