use std::collections::BTreeMap;
use t1_daemons::auth_protocol::{
    BrokerDecision, BrokerState, PeerAddressFamily, PeerMetadata, PolicyError, Response,
};
use t1_daemons::enrollment_owner::{
    encode_owner, is_pending_name, map_policy_error, parse_owner, pending_name,
    pending_name_tried, ClaimAction, ClaimStep, CreateOutcome, EnrollmentOwner,
    EnrollmentOwnerError, EnrollmentOwnerStore, FileFacts, LinkEntry, OpenOutcome, OwnerClaim,
    PendingNameStep, PublishOutcome, DIRECTORY_MODE, OWNER_FILE_MODE, PENDING_ATTEMPTS,
};

const AUTHENTICATE_REQUEST: &[u8; 8] = b"T1AUTH\x01\n";
const OWNER_FILE: &[u8] = b"owner.uid";
const USER: u32 = 1000;
const GROUP: u32 = 1001;

#[derive(Clone)]
struct FakeFile {
    content: Vec<u8>,
    mode: u32,
    links: u64,
}

/// A directory kept in memory, with its files by inode.
struct FakeDirectory {
    store: EnrollmentOwnerStore,
    directory: Option<u64>,
    names: BTreeMap<Vec<u8>, u64>,
    files: BTreeMap<u64, FakeFile>,
    symlinks: Vec<Vec<u8>>,
    next_inode: u64,
    sequence: u64,
}

/// One claim under way.
struct Claimant {
    step: Option<ClaimStep>,
    pending: Option<Vec<u8>>,
    opened: Option<u64>,
}

fn owner(user_id: u32) -> EnrollmentOwner {
    match EnrollmentOwner::new(user_id) {
        Ok(owner) => owner,
        Err(_) => panic!("synthetic non-root owner"),
    }
}

fn peer(user_id: u32) -> PeerMetadata {
    PeerMetadata {
        address_family: PeerAddressFamily::Local,
        user_id,
        group_id: user_id.saturating_add(1),
    }
}

impl FakeDirectory {
    fn new() -> Self {
        Self {
            store: EnrollmentOwnerStore::owned_by(USER, GROUP),
            directory: None,
            names: BTreeMap::new(),
            files: BTreeMap::new(),
            symlinks: Vec::new(),
            next_inode: 100,
            sequence: 0,
        }
    }

    fn create(&mut self) {
        if self.directory.is_none() {
            self.directory = Some(7);
        }
    }

    fn directory_facts(inode: u64) -> FileFacts {
        FileFacts {
            is_file: false,
            is_directory: true,
            mode: 0o040_000 | DIRECTORY_MODE,
            user_id: USER,
            group_id: GROUP,
            links: 2,
            device: 1,
            inode,
            size: 4096,
        }
    }

    fn open_directory(&self) -> OpenOutcome {
        match self.directory {
            None => OpenOutcome::Missing,
            Some(inode) => OpenOutcome::Opened(Self::directory_facts(inode)),
        }
    }

    fn facts(&self, inode: u64) -> FileFacts {
        let file = &self.files[&inode];
        FileFacts {
            is_file: true,
            is_directory: false,
            mode: 0o100_000 | file.mode,
            user_id: USER,
            group_id: GROUP,
            links: file.links,
            device: 1,
            inode,
            size: file.content.len() as u64,
        }
    }

    fn open(&self, name: &[u8]) -> OpenOutcome {
        if self.symlinks.iter().any(|link| link == name) {
            return OpenOutcome::Refused;
        }
        match self.names.get(name) {
            None => OpenOutcome::Missing,
            Some(inode) => OpenOutcome::Opened(self.facts(*inode)),
        }
    }

    fn entries(&self) -> Vec<LinkEntry> {
        self.names
            .keys()
            .map(|name| LinkEntry::Named { name: name.clone(), open: self.open(name) })
            .collect()
    }

    fn write(&mut self, name: &[u8], content: &[u8], mode: u32) -> u64 {
        let inode = self.next_inode;
        self.next_inode += 1;
        self.files.insert(inode, FakeFile { content: content.to_vec(), mode, links: 1 });
        self.names.insert(name.to_vec(), inode);
        inode
    }

    fn link(&mut self, from: &[u8], to: &[u8]) {
        let inode = self.names[from];
        self.files.get_mut(&inode).unwrap().links += 1;
        self.names.insert(to.to_vec(), inode);
    }

    fn unlink(&mut self, name: &[u8]) {
        let inode = self.names.remove(name).unwrap();
        self.files.get_mut(&inode).unwrap().links -= 1;
    }

    fn read_owner(&self) -> Result<EnrollmentOwner, EnrollmentOwnerError> {
        let open = self.open(OWNER_FILE);
        let current = match open {
            OpenOutcome::Opened(facts) => Some(facts),
            _ => None,
        };
        let readable = self.store.owner_file_opened(&open, Some(&self.entries()), current)?;
        let content = self.files[&self.names[OWNER_FILE]].content.clone();
        readable.decode(Some(&content))
    }

    fn load(&self) -> Result<EnrollmentOwner, EnrollmentOwnerError> {
        let directory = self.open_directory();
        let facts = self.directory.map(Self::directory_facts);
        self.store.load(&directory, self.read_owner(), facts, facts)
    }

    fn claimant(&self, owner: EnrollmentOwner) -> Claimant {
        Claimant { step: Some(self.store.claim(owner)), pending: None, opened: None }
    }

    /// Takes one step of a claim; gives its result once it has ended.
    fn advance(
        &mut self,
        claimant: &mut Claimant,
    ) -> Option<Result<OwnerClaim, EnrollmentOwnerError>> {
        let step = match claimant.step.take().unwrap() {
            ClaimStep::Act(pending) => {
                let identity = self.store.ensure_directory_identity(
                    claimant.opened.map(Self::directory_facts),
                    self.directory.map(Self::directory_facts),
                );
                let outcome = match pending.action {
                    ClaimAction::OpenDirectory => {
                        self.create();
                        claimant.opened = self.directory;
                        self.store.open_directory(&self.open_directory())
                    }
                    ClaimAction::CheckExisting(_)
                    | ClaimAction::CheckBeforePublish
                    | ClaimAction::CheckDirectory { .. } => identity,
                    ClaimAction::SyncExisting(_)
                    | ClaimAction::SyncPending
                    | ClaimAction::SyncDirectory { .. } => Ok(()),
                    ClaimAction::CreatePending => self.create_pending(claimant),
                    ClaimAction::SecurePending => {
                        let inode = self.names[claimant.pending.as_ref().unwrap()];
                        self.files.get_mut(&inode).unwrap().mode = OWNER_FILE_MODE;
                        Ok(())
                    }
                    ClaimAction::InspectPending => {
                        let inode = self.names[claimant.pending.as_ref().unwrap()];
                        self.store.validate_private_file_metadata(&self.facts(inode))
                    }
                    ClaimAction::WritePending => {
                        let inode = self.names[claimant.pending.as_ref().unwrap()];
                        let content = pending.content();
                        self.files.get_mut(&inode).unwrap().content = content;
                        Ok(())
                    }
                    ClaimAction::RemovePending { .. } => {
                        let name = claimant.pending.take().unwrap();
                        self.unlink(&name);
                        Ok(())
                    }
                };
                pending.done(outcome)
            }
            ClaimStep::Read(pending) => pending.read(self.read_owner()),
            ClaimStep::Publish(pending) => {
                let outcome = if self.names.contains_key(OWNER_FILE) {
                    PublishOutcome::AlreadyExists
                } else {
                    let name = claimant.pending.clone().unwrap();
                    self.link(&name, OWNER_FILE);
                    PublishOutcome::Linked
                };
                pending.published(outcome)
            }
            ClaimStep::End(result) => {
                if let Some(name) = claimant.pending.take() {
                    self.unlink(&name);
                }
                return Some(result);
            }
        };
        claimant.step = Some(step);
        None
    }

    fn create_pending(&mut self, claimant: &mut Claimant) -> Result<(), EnrollmentOwnerError> {
        let mut tried = 0;
        loop {
            let name = pending_name(self.sequence);
            self.sequence += 1;
            let outcome = if self.names.contains_key(&name) {
                CreateOutcome::AlreadyExists
            } else {
                self.write(&name, b"", 0o644);
                claimant.pending = Some(name);
                CreateOutcome::Created
            };
            match pending_name_tried(tried, outcome) {
                PendingNameStep::Retry(next) => tried = next,
                PendingNameStep::Done(result) => return result,
            }
        }
    }

    fn claim(&mut self, owner: EnrollmentOwner) -> Result<OwnerClaim, EnrollmentOwnerError> {
        let mut claimant = self.claimant(owner);
        loop {
            if let Some(result) = self.advance(&mut claimant) {
                return result;
            }
        }
    }
}

fn is_owner(result: Result<EnrollmentOwner, EnrollmentOwnerError>, user_id: u32) -> bool {
    matches!(result, Ok(owner) if owner.as_raw() == user_id)
}

fn fails(
    result: Result<EnrollmentOwner, EnrollmentOwnerError>,
    expected: EnrollmentOwnerError,
) -> bool {
    matches!(result, Err(error) if error == expected)
}

#[test]
fn first_claim_is_durable_and_same_owner_is_read_only() {
    let mut directory = FakeDirectory::new();
    let selected = owner(42_000);

    assert_eq!(directory.claim(selected), Ok(OwnerClaim::Recorded));
    assert!(is_owner(directory.load(), 42_000));
    let inode = directory.names[OWNER_FILE];
    let bytes = directory.files[&inode].content.clone();

    assert_eq!(directory.claim(selected), Ok(OwnerClaim::Existing));
    assert_eq!(bytes, b"42000\n");
    assert_eq!(directory.names[OWNER_FILE], inode);
    assert_eq!(directory.files[&inode].content, bytes);
    assert_eq!(directory.files[&inode].links, 1);
    assert_eq!(directory.names.len(), 1);
}

#[test]
fn second_owner_is_refused_without_storage_mutation() {
    let mut directory = FakeDirectory::new();
    assert_eq!(directory.claim(owner(42_000)), Ok(OwnerClaim::Recorded));
    let names = directory.names.clone();
    let bytes = directory.files[&names[OWNER_FILE]].content.clone();

    assert_eq!(
        directory.claim(owner(42_001)),
        Err(EnrollmentOwnerError::DifferentOwner)
    );
    assert_eq!(directory.names, names);
    assert_eq!(directory.files[&names[OWNER_FILE]].content, bytes);
}

#[test]
fn stored_owner_is_the_only_non_root_broker_identity() {
    let mut directory = FakeDirectory::new();
    assert_eq!(directory.claim(owner(42_000)), Ok(OwnerClaim::Recorded));
    let policy = directory.store.access_policy(directory.load()).unwrap();

    for admitted in [0, 42_000] {
        let mut broker = BrokerState::default();
        assert!(matches!(
            broker.handle_packet(peer(admitted), policy, AUTHENTICATE_REQUEST),
            BrokerDecision::Start(_)
        ));
    }
    let mut broker = BrokerState::default();
    assert!(
        broker.handle_packet(peer(42_001), policy, AUTHENTICATE_REQUEST)
            == BrokerDecision::Reply(Response::Denied)
    );
}

#[test]
fn missing_corrupt_and_unsafe_state_fail_closed() {
    let mut directory = FakeDirectory::new();
    assert!(fails(directory.load(), EnrollmentOwnerError::MissingOwner));

    directory.create();
    assert!(fails(directory.load(), EnrollmentOwnerError::MissingOwner));
    for corrupt in [b"0\n".as_slice(), b"042000\n", b"42000", b"not-a-uid\n", b""] {
        directory.write(OWNER_FILE, corrupt, OWNER_FILE_MODE);
        assert!(fails(directory.load(), EnrollmentOwnerError::CorruptState));
    }

    directory.write(OWNER_FILE, b"42000\n", 0o644);
    assert!(fails(directory.load(), EnrollmentOwnerError::UnsafeStorage));
}

#[test]
fn symlink_and_hardlink_owner_state_are_never_accepted() {
    let mut directory = FakeDirectory::new();
    directory.create();
    directory.symlinks.push(OWNER_FILE.to_vec());
    assert!(matches!(
        directory.load(),
        Err(EnrollmentOwnerError::StorageUnavailable | EnrollmentOwnerError::UnsafeStorage)
    ));
    directory.symlinks.clear();
    let inode = directory.write(OWNER_FILE, b"42000\n", OWNER_FILE_MODE);
    directory.files.get_mut(&inode).unwrap().links = 2;
    assert!(fails(directory.load(), EnrollmentOwnerError::UnsafeStorage));
}

#[test]
fn published_owner_survives_crash_window_without_accepting_other_hardlinks() {
    let mut directory = FakeDirectory::new();
    directory.create();
    let inode = directory.write(&pending_name(0), b"42000\n", OWNER_FILE_MODE);
    directory.link(&pending_name(0), OWNER_FILE);

    assert!(is_owner(directory.load(), 42_000));

    directory.files.get_mut(&inode).unwrap().links = 3;
    assert!(fails(directory.load(), EnrollmentOwnerError::UnsafeStorage));
}

#[test]
fn owner_validation_accepts_publisher_removing_its_pending_link() {
    let mut directory = FakeDirectory::new();
    directory.create();
    let inode = directory.write(&pending_name(0), b"42000\n", OWNER_FILE_MODE);
    directory.link(&pending_name(0), OWNER_FILE);
    let publishing = directory.facts(inode);
    assert_eq!(publishing.links, 2);

    directory.unlink(&pending_name(0));

    assert_eq!(
        directory.store.validate_owner_file_metadata(
            &publishing,
            Some(&directory.entries()),
            Some(directory.facts(inode)),
        ),
        Ok(())
    );
    assert!(is_owner(directory.load(), 42_000));
}

#[test]
fn owner_validation_rejects_a_changed_multilink_count() {
    let mut directory = FakeDirectory::new();
    directory.create();
    let inode = directory.write(&pending_name(0), b"42000\n", OWNER_FILE_MODE);
    directory.link(&pending_name(0), OWNER_FILE);
    directory.link(&pending_name(0), &pending_name(1));
    let publishing = directory.facts(inode);
    assert_eq!(publishing.links, 3);

    directory.unlink(&pending_name(1));

    assert_eq!(
        directory.store.validate_owner_file_metadata(
            &publishing,
            Some(&directory.entries()),
            Some(directory.facts(inode)),
        ),
        Err(EnrollmentOwnerError::UnsafeStorage)
    );
}

#[test]
fn concurrent_different_claims_publish_exactly_one_complete_owner() {
    let mut directory = FakeDirectory::new();
    let mut first = directory.claimant(owner(42_000));
    let mut second = directory.claimant(owner(42_001));
    let mut results = [None, None];
    while results.iter().any(Option::is_none) {
        if results[0].is_none() {
            results[0] = directory.advance(&mut first);
        }
        if results[1].is_none() {
            results[1] = directory.advance(&mut second);
        }
    }

    assert_eq!(results[0], Some(Ok(OwnerClaim::Recorded)));
    assert_eq!(results[1], Some(Err(EnrollmentOwnerError::DifferentOwner)));
    assert!(is_owner(directory.load(), 42_000));
    assert_eq!(directory.files[&directory.names[OWNER_FILE]].links, 1);
    assert_eq!(directory.names.len(), 1);
}

#[test]
fn racing_claims_record_one_owner_in_whatever_order_they_run() {
    for (first_id, second_id) in [(42_000, 42_001), (42_000, 42_000)] {
        for schedule in 0_u32..1 << 12 {
            let mut directory = FakeDirectory::new();
            let mut claimants =
                [directory.claimant(owner(first_id)), directory.claimant(owner(second_id))];
            let mut results = [None, None];
            let mut turn = 0;
            while results.iter().any(Option::is_none) {
                let next = usize::from((schedule >> (turn % 12)) & 1 == 1);
                let chosen = if results[next].is_none() { next } else { 1 - next };
                results[chosen] = directory.advance(&mut claimants[chosen]);
                turn += 1;
            }

            let winner = usize::from(results[0] != Some(Ok(OwnerClaim::Recorded)));
            assert_eq!(results[winner], Some(Ok(OwnerClaim::Recorded)));
            assert_eq!(
                results[1 - winner],
                Some(if first_id == second_id {
                    Ok(OwnerClaim::Existing)
                } else {
                    Err(EnrollmentOwnerError::DifferentOwner)
                })
            );
            let recorded = if winner == 0 { first_id } else { second_id };
            assert!(is_owner(directory.load(), recorded));
        }
    }
}

#[test]
fn directory_replacement_is_detected_before_hardware_can_start() {
    let mut directory = FakeDirectory::new();
    directory.create();
    let opened = FakeDirectory::directory_facts(7);
    assert_eq!(directory.store.open_directory(&OpenOutcome::Opened(opened)), Ok(()));
    let replacement = FakeDirectory::directory_facts(8);

    assert_eq!(
        directory.store.ensure_directory_identity(Some(opened), Some(replacement)),
        Err(EnrollmentOwnerError::UnsafeStorage)
    );
}

#[test]
fn owner_values_and_diagnostics_are_redacted() {
    assert!(matches!(
        EnrollmentOwner::new(0),
        Err(EnrollmentOwnerError::InvalidOwner)
    ));
    assert!(!owner(42_000).diagnostic().contains("42000"));
    for error in [
        EnrollmentOwnerError::InvalidOwner,
        EnrollmentOwnerError::MissingOwner,
        EnrollmentOwnerError::DifferentOwner,
        EnrollmentOwnerError::UnsafeStorage,
        EnrollmentOwnerError::CorruptState,
        EnrollmentOwnerError::StorageUnavailable,
    ] {
        assert!(!format!("{error:?} {}", error.message()).contains("42000"));
    }
}

#[test]
fn claims_stop_when_the_directory_was_replaced() {
    let mut directory = FakeDirectory::new();
    let mut claimant = directory.claimant(owner(42_000));
    assert!(directory.advance(&mut claimant).is_none());
    directory.directory = Some(8);
    loop {
        if let Some(result) = directory.advance(&mut claimant) {
            assert_eq!(result, Err(EnrollmentOwnerError::UnsafeStorage));
            break;
        }
    }
    assert!(directory.names.is_empty());
}

#[test]
fn pending_names_are_canonical_and_retried_within_a_bound() {
    assert_eq!(pending_name(0), b".owner.uid.pending-0");
    assert!(is_pending_name(&pending_name(u64::MAX)));
    for suffix in ["", "00", "01", "1a", "-1"] {
        let mut name = pending_name(0);
        name.pop();
        name.extend_from_slice(suffix.as_bytes());
        assert!(!is_pending_name(&name));
    }
    assert!(!is_pending_name(OWNER_FILE));
    assert!(matches!(
        pending_name_tried(0, CreateOutcome::AlreadyExists),
        PendingNameStep::Retry(1)
    ));
    assert!(matches!(
        pending_name_tried(PENDING_ATTEMPTS - 1, CreateOutcome::AlreadyExists),
        PendingNameStep::Done(Err(EnrollmentOwnerError::StorageUnavailable))
    ));
    assert!(matches!(
        pending_name_tried(0, CreateOutcome::Failed),
        PendingNameStep::Done(Err(EnrollmentOwnerError::StorageUnavailable))
    ));
}

#[test]
fn owner_records_round_trip() {
    for user_id in [1, 42_000, u32::MAX] {
        assert!(is_owner(parse_owner(&encode_owner(owner(user_id))), user_id));
    }
    assert_eq!(encode_owner(owner(u32::MAX)), b"4294967295\n");
    assert!(fails(parse_owner(b"4294967296\n"), EnrollmentOwnerError::CorruptState));
    assert!(fails(parse_owner(b"+1\n"), EnrollmentOwnerError::CorruptState));
    assert_eq!(
        map_policy_error(PolicyError::InvalidEnrollmentOwner),
        EnrollmentOwnerError::CorruptState
    );
}
