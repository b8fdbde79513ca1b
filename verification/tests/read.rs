use bytes::Bytes;
use lore::errors::Detail;
use lore::read::{
    read_address, read_content, read_file, ContentStream, LoreError, LoreFileReadEventData, Node,
    NodeLink, ReadAction, ReadError, ReadFileOptions,
};
use std::collections::BTreeMap;

fn detail() -> Detail {
    Detail { text: "said".to_string(), context: Some("while reading".to_string()) }
}

/// A node of a test repository.
#[derive(Clone)]
struct Entry {
    is_file: bool,
    size: u64,
    address: u32,
}

/// A repository in memory: each revision is a number, and so are a node and an
/// address.
#[derive(Default)]
struct Repository {
    current: Option<u32>,
    staged: Option<u32>,
    staged_fails: bool,
    named: BTreeMap<String, u32>,
    states: BTreeMap<u32, BTreeMap<String, u32>>,
    nodes: BTreeMap<u32, Entry>,
    contents: BTreeMap<u32, Vec<Vec<u8>>>,
    sizes: BTreeMap<u32, u64>,
}

impl Repository {
    /// Commits `parts` as the content of the only file, and makes it current.
    fn commit(&mut self, revision: u32, path: &str, parts: &[&[u8]]) {
        let size = parts.iter().map(|part| part.len() as u64).sum();
        let address = 1000 + revision;
        self.nodes.insert(revision, Entry { is_file: true, size, address });
        self.states.insert(revision, BTreeMap::from([(path.to_string(), revision)]));
        self.contents.insert(address, parts.iter().map(|part| part.to_vec()).collect());
        self.sizes.insert(address, size);
        self.named.insert(format!("r{revision}"), revision);
        self.current = Some(revision);
    }

    fn stream(&self, opening: lore::read::ContentOpening<u32>) -> Outcome {
        let address = *opening.to_open();
        let opened = match self.sizes.get(&address) {
            Some(size) => opening.opened(Ok(*size)),
            None => opening.opened(Err(ReadError::AddressNotFound(detail()))),
        };
        let mut events = Vec::new();
        let mut stream = match opened {
            Ok(stream) => stream,
            Err(error) => return Outcome { result: Err(error), events },
        };
        for part in &self.contents[&address] {
            let (next, event) = match stream.receive(Bytes::from(part.clone())) {
                Ok(delivered) => delivered,
                Err(_) => panic!("the content is small"),
            };
            stream = next;
            events.push(event);
        }
        Outcome { result: stream.finish(), events }
    }

    fn read(&self, path: &str, revision: Option<&str>) -> Outcome {
        let options = ReadFileOptions { revision: revision.map(str::to_string) };
        let mut action: ReadAction<u32, u32, u32> = read_file(path.to_string(), options);
        let mut state: Option<&BTreeMap<String, u32>> = None;
        loop {
            action = match action {
                ReadAction::ResolvePath { path, next, .. } => next.resume(
                    match path.strip_prefix("/repository/") {
                        Some(relative) => Ok(relative.to_string()),
                        None => Err(ReadError::InvalidPath(detail())),
                    },
                ),
                ReadAction::ResolveRevision { revision, next } => {
                    next.resume(self.named.get(&revision).copied())
                }
                ReadAction::LoadCurrentAnchor { next, .. } => {
                    next.resume(self.current.ok_or_else(|| ReadError::NotFound(detail())))
                }
                ReadAction::LoadStagedRevision { next } => {
                    next.resume(if self.staged_fails { Err(()) } else { Ok(self.staged) })
                }
                ReadAction::DeserializeState { signature, next, .. } => {
                    state = self.states.get(&signature);
                    next.resume(match state {
                        Some(_) => Ok(()),
                        None => Err(ReadError::PayloadNotFound(detail())),
                    })
                }
                ReadAction::FindNodeLink { path, next } => {
                    let node = state.and_then(|state| state.get(&path));
                    next.resume(node.map(|node| NodeLink { valid: *node != 0, node: *node }))
                }
                ReadAction::LoadNode { node, next } => {
                    next.resume(self.nodes.get(&node).map(|entry| Node {
                        is_file: entry.is_file,
                        size: entry.size,
                        address: entry.address,
                    }))
                }
                ReadAction::Emit { event } => {
                    return Outcome { result: Ok(()), events: vec![event] };
                }
                ReadAction::ReadContent { address } => {
                    return self.stream(read_content(address));
                }
                ReadAction::Fail { error } => {
                    return Outcome { result: Err(error), events: Vec::new() };
                }
            }
        }
    }
}

struct Outcome {
    result: Result<(), ReadError>,
    events: Vec<LoreFileReadEventData<u32>>,
}

impl Outcome {
    fn payload(&self) -> Vec<u8> {
        self.events.iter().flat_map(|event| event.bytes.to_vec()).collect()
    }
}

/// Whether a result is this error, with the detail that it had outside.
fn carried(result: Result<(), ReadError>, sort: fn(&ReadError) -> bool) -> bool {
    match result {
        Err(error) => {
            let written = format!("{error:?}");
            sort(&error) && written.contains("said") && written.contains("while reading")
        }
        Ok(()) => false,
    }
}

#[test]
fn a_read_delivers_the_committed_content() {
    let mut repository = Repository::default();
    repository.commit(1, "small.bin", &[b"first ", b"second ", b"third"]);
    let outcome = repository.read("/repository/small.bin", None);
    assert!(outcome.result.is_ok());
    assert_eq!(outcome.payload(), b"first second third");
    let offsets: Vec<u64> = outcome.events.iter().map(|event| event.offset).collect();
    assert_eq!(offsets, [0, 6, 13]);
    assert!(outcome.events.iter().all(|event| event.size_content == 18));
    assert!(outcome.events.iter().all(|event| event.address == 1001));
}

#[test]
fn a_read_by_address_delivers_the_content() {
    let mut repository = Repository::default();
    repository.commit(1, "byaddr.bin", &[b"content"]);
    let outcome = repository.stream(read_address(1001));
    assert!(outcome.result.is_ok());
    assert_eq!(outcome.payload(), b"content");
}

#[test]
fn a_read_at_an_older_revision_delivers_the_old_content() {
    let mut repository = Repository::default();
    repository.commit(1, "versioned.bin", &[b"first version contents"]);
    repository.commit(2, "versioned.bin", &[b"second version, a different length of contents"]);
    let path = "/repository/versioned.bin";
    assert_eq!(
        repository.read(path, None).payload(),
        b"second version, a different length of contents"
    );
    assert_eq!(repository.read(path, Some("r1")).payload(), b"first version contents");
}

#[test]
fn a_staged_revision_goes_before_the_current_one() {
    let mut repository = Repository::default();
    repository.commit(2, "file", &[b"staged"]);
    repository.commit(1, "file", &[b"current"]);
    repository.staged = Some(2);
    assert_eq!(repository.read("/repository/file", None).payload(), b"staged");
    // A staged revision that cannot be loaded counts as none.
    repository.staged_fails = true;
    assert_eq!(repository.read("/repository/file", None).payload(), b"current");
    // A named revision goes before both.
    repository.staged_fails = false;
    assert_eq!(repository.read("/repository/file", Some("r1")).payload(), b"current");
}

#[test]
fn an_empty_file_is_delivered_as_one_empty_event() {
    let mut repository = Repository::default();
    repository.commit(1, "empty.bin", &[]);
    let outcome = repository.read("/repository/empty.bin", None);
    assert!(outcome.result.is_ok());
    assert_eq!(outcome.events.len(), 1);
    let event = &outcome.events[0];
    assert_eq!((event.address, event.offset, event.size_content), (1001, 0, 0));
    assert!(event.bytes.is_empty());
}

#[test]
fn a_path_outside_the_repository_is_the_error_that_resolving_gave() {
    let mut repository = Repository::default();
    repository.commit(1, "present.bin", &[b"present"]);
    let outcome = repository.read("/elsewhere/present.bin", None);
    assert!(carried(outcome.result, |error| matches!(error, ReadError::InvalidPath(_))));
    assert!(outcome.events.is_empty());
}

#[test]
fn a_missing_file_is_not_found() {
    let mut repository = Repository::default();
    repository.commit(1, "present.bin", &[b"present"]);
    let outcome = repository.read("/repository/does-not-exist.bin", None);
    match outcome.result {
        Err(ReadError::FileNotFound { resource, context: None }) => assert_eq!(resource, "does-not-exist.bin"),
        other => panic!("{other:?}"),
    }
    assert!(outcome.events.is_empty());
}

#[test]
fn a_link_that_leads_nowhere_is_not_found() {
    let mut repository = Repository::default();
    repository.commit(1, "broken", &[b"content"]);
    repository.states.get_mut(&1).unwrap().insert("broken".to_string(), 0);
    let outcome = repository.read("/repository/broken", None);
    assert!(matches!(outcome.result, Err(ReadError::FileNotFound { .. })));
}

#[test]
fn a_node_that_does_not_load_is_not_found() {
    let mut repository = Repository::default();
    repository.commit(1, "lost", &[b"content"]);
    repository.nodes.clear();
    let outcome = repository.read("/repository/lost", None);
    assert!(matches!(outcome.result, Err(ReadError::FileNotFound { .. })));
}

#[test]
fn a_directory_is_not_found() {
    let mut repository = Repository::default();
    repository.commit(1, "sub", &[b"content"]);
    repository.nodes.get_mut(&1).unwrap().is_file = false;
    let outcome = repository.read("/repository/sub", None);
    match outcome.result {
        Err(ReadError::FileNotFound { resource, context: None }) => assert_eq!(resource, "sub"),
        other => panic!("{other:?}"),
    }
}

#[test]
fn an_unknown_revision_is_not_found() {
    let mut repository = Repository::default();
    repository.commit(1, "present.bin", &[b"present contents"]);
    let outcome = repository.read("/repository/present.bin", Some("deadbeef"));
    match outcome.result {
        Err(ReadError::RevisionNotFound { revision, context: None }) => assert_eq!(revision, "deadbeef"),
        other => panic!("{other:?}"),
    }
    assert!(outcome.events.is_empty());
}

#[test]
fn errors_of_the_anchor_and_the_state_come_through() {
    let mut repository = Repository::default();
    let outcome = repository.read("/repository/file", None);
    assert!(carried(outcome.result, |error| matches!(error, ReadError::NotFound(_))));
    repository.commit(1, "file", &[b"content"]);
    repository.states.clear();
    let outcome = repository.read("/repository/file", None);
    assert!(carried(outcome.result, |error| matches!(error, ReadError::PayloadNotFound(_))));
}

#[test]
fn an_unknown_address_is_the_error_that_opening_gave() {
    let repository = Repository::default();
    let outcome = repository.stream(read_address(7));
    assert!(carried(outcome.result, |error| matches!(error, ReadError::AddressNotFound(_))));
    assert!(outcome.events.is_empty());
}

fn opened(size: u64) -> ContentStream<u32> {
    read_content(5u32).opened(Ok(size)).unwrap_or_else(|error| panic!("{error:?}"))
}

fn deliver(stream: ContentStream<u32>, bytes: &'static [u8]) -> ContentStream<u32> {
    stream.deliver(Bytes::from_static(bytes)).0
}

fn internal_message(result: Result<(), ReadError>) -> String {
    match result {
        Err(ReadError::Internal { message, cause: None }) => message,
        other => panic!("{other:?}"),
    }
}

#[test]
fn a_stream_that_ends_early_is_an_error() {
    let stream = deliver(deliver(opened(12), b"12345"), b"678");
    assert_eq!(internal_message(stream.finish()), "streamed 8 bytes, expected 12");
    assert_eq!(internal_message(opened(1).finish()), "streamed 0 bytes, expected 1");
}

#[test]
fn a_stream_that_runs_over_is_an_error() {
    let stream = deliver(opened(2), b"123");
    assert_eq!(internal_message(stream.finish()), "streamed 3 bytes, expected 2");
}

#[test]
fn a_stream_that_ends_at_its_size_is_complete() {
    assert!(opened(0).finish().is_ok());
    assert!(deliver(opened(3), b"123").finish().is_ok());
    assert!(deliver(deliver(opened(3), b""), b"123").finish().is_ok());
}

#[test]
fn every_forwarded_error_has_its_context() {
    let options = ReadFileOptions { revision: None };
    let start: ReadAction<u32, u32, u32> = read_file("file".to_string(), options.clone());
    let ReadAction::ResolvePath { path, context, next } = start else { panic!("the path is first") };
    assert_eq!((path.as_str(), context), ("file", "resolving user path"));
    let action: ReadAction<u32, u32, u32> = next.resume(Ok(path));
    let ReadAction::LoadCurrentAnchor { context, next } = action else { panic!("no revision") };
    assert_eq!(context, "Failed to deserialize current revision anchor");
    let action: ReadAction<u32, u32, u32> = next.resume(Ok(7));
    let ReadAction::LoadStagedRevision { next } = action else { panic!("nothing is named") };
    let action: ReadAction<u32, u32, u32> = next.resume(Ok(None));
    let ReadAction::DeserializeState { signature, context, .. } = action else {
        panic!("the revision is known")
    };
    assert_eq!((signature, context), (7, "Failed to deserialize state"));
    assert_eq!(read_content(7u32).context(), "reading immutable data");
    assert_eq!(options.revision, None);
}

#[test]
fn an_event_holds_the_very_chunk_that_came() {
    let chunk = Bytes::from(vec![1, 2, 3]);
    let ptr = chunk.as_ptr();
    let (_, event) = opened(3).deliver(chunk);
    assert_eq!((event.bytes.as_ptr(), event.bytes.len()), (ptr, 3));
}

#[test]
fn read_errors_translate_for_callers() {
    let text = String::new;
    assert_eq!(ReadError::InvalidArguments(detail()).translated(), LoreError::InvalidArguments);
    assert_eq!(ReadError::InvalidPath(detail()).translated(), LoreError::InvalidArguments);
    assert_eq!(ReadError::InvalidAddress(detail()).translated(), LoreError::InvalidArguments);
    assert_eq!(
        ReadError::RevisionNotFound { revision: text(), context: None }.translated(),
        LoreError::NotFound
    );
    assert_eq!(ReadError::NotFound(detail()).translated(), LoreError::NotFound);
    assert_eq!(
        ReadError::FileNotFound { resource: text(), context: None }.translated(),
        LoreError::FileNotFound
    );
    assert_eq!(ReadError::WriteRequired(detail()).translated(), LoreError::Internal);
    assert_eq!(ReadError::AddressNotFound(detail()).translated(), LoreError::Internal);
    assert_eq!(ReadError::NotAuthorized(detail()).translated(), LoreError::Internal);
    assert_eq!(ReadError::MissingIdentity(detail()).translated(), LoreError::Internal);
    assert_eq!(
        ReadError::Internal { message: text(), cause: None }.translated(),
        LoreError::Internal
    );
}
