//! Addresses of trust-metadata documents and the choice among stored versions.
//!
//! A document is stored under a repository, a role and a version. A request
//! names the repository and the role, and either one version or the latest.

use crate::tuf_repository_type::{RepositoryType, Type};
use crate::tuf_roles::{Role, RoleView};
use crate::tuf_version::{Version, ANY_VERSION};
use vstd::prelude::*;

verus! {

/// The address of a document: repository, role and version. The version
/// `ANY_VERSION` asks for the latest document of the repository and role.
#[derive(Debug)]
pub struct MetadataAddress {
    pub repo: RepositoryType,
    pub role: Role,
    pub version: Version,
}

/// A stored document: the address it is stored under, and its bytes.
#[derive(Debug)]
pub struct StoredDocument {
    pub repo: RepositoryType,
    pub role: Role,
    pub version: Version,
    pub meta: Vec<u8>,
}

/// What an address is, as contracts speak of it.
pub struct AddressView {
    pub repo: Type,
    pub role: RoleView,
    pub version: int,
}

/// What a stored document is, as contracts speak of it.
pub struct DocumentView {
    pub repo: Type,
    pub role: RoleView,
    pub version: int,
    pub meta: Seq<u8>,
}

/// Why a store refuses a document.
#[derive(Debug, Clone, Copy, PartialEq, Eq, Structural)]
pub enum StoreError {
    /// The document carries the version that stands for "latest".
    ReservedVersion,
    /// A document is already stored under the same repository, role and
    /// version.
    DuplicateAddress,
}

/// Documents which no two of share a repository, a role and a version, and
/// none of which carries the version that stands for "latest".
pub struct MetadataStore {
    documents: Vec<StoredDocument>,
}

impl View for MetadataAddress {
    type V = AddressView;

    open spec fn view(&self) -> AddressView {
        AddressView { repo: self.repo.kind(), role: self.role@, version: self.version.value() }
    }
}

impl View for StoredDocument {
    type V = DocumentView;

    open spec fn view(&self) -> DocumentView {
        DocumentView {
            repo: self.repo.kind(),
            role: self.role@,
            version: self.version.value(),
            meta: self.meta@,
        }
    }
}

/// Whether a document belongs to a repository and a role. Roles are the same
/// when their names are.
pub open spec fn in_series(d: DocumentView, repo: Type, role: RoleView) -> bool {
    d.repo == repo && d.role.name == role.name
}

/// Whether two documents are stored under the same repository, role and
/// version.
pub open spec fn same_address(d: DocumentView, e: DocumentView) -> bool {
    in_series(d, e.repo, e.role) && d.version == e.version
}

/// Whether a document is one that a request may be answered with: it belongs
/// to the repository and role of the address, and has its version unless the
/// address asks for the latest.
pub open spec fn is_candidate(d: DocumentView, a: AddressView) -> bool {
    in_series(d, a.repo, a.role) && (a.version == ANY_VERSION || d.version == a.version)
}

/// Whether the document at place `i` answers the address: it is a candidate,
/// and where the address asks for the latest, no candidate has a greater
/// version.
pub open spec fn answers(docs: Seq<DocumentView>, a: AddressView, i: int) -> bool {
    &&& 0 <= i < docs.len()
    &&& is_candidate(docs[i], a)
    &&& forall|j: int|
        0 <= j < docs.len() && is_candidate(#[trigger] docs[j], a) ==> docs[j].version
            <= docs[i].version
}

/// Whether `meta` is what a request for `a` is answered with: the bytes of the
/// document that answers it, or nothing where no candidate is stored.
pub open spec fn resolved(docs: Seq<DocumentView>, a: AddressView, meta: Option<Seq<u8>>) -> bool {
    match meta {
        Some(m) => exists|i: int| #[trigger] answers(docs, a, i) && docs[i].meta == m,
        None => forall|i: int| 0 <= i < docs.len() ==> !is_candidate(#[trigger] docs[i], a),
    }
}

/// Whether no two documents share an address and none carries the version that
/// stands for "latest".
pub open spec fn well_formed(docs: Seq<DocumentView>) -> bool {
    &&& forall|i: int| 0 <= i < docs.len() ==> (#[trigger] docs[i]).version != ANY_VERSION
    &&& forall|i: int, j: int|
        0 <= i < docs.len() && 0 <= j < docs.len() && i != j ==> !same_address(
            #[trigger] docs[i],
            #[trigger] docs[j],
        )
}

impl MetadataAddress {
    /// The address of the document of `repo` and `role` at `version`, or of
    /// the latest one where no version is given.
    pub fn new(repo: RepositoryType, role: Role, version: Option<Version>) -> (a: MetadataAddress)
        ensures
            a@.repo == repo.kind(),
            a@.role == role@,
            a@.version == match version {
                Some(v) => v.value(),
                None => ANY_VERSION as int,
            },
    {
        let version = match version {
            Some(v) => v,
            None => Version::new(),
        };
        MetadataAddress { repo, role, version }
    }
}

impl View for MetadataStore {
    type V = Seq<DocumentView>;

    closed spec fn view(&self) -> Seq<DocumentView> {
        self.documents@.map_values(|d: StoredDocument| d@)
    }
}

impl MetadataStore {
    #[verifier::type_invariant]
    spec fn inv(self) -> bool {
        well_formed(self@)
    }

    /// A store without documents.
    pub fn new() -> (store: MetadataStore)
        ensures
            store@ == Seq::<DocumentView>::empty(),
    {
        MetadataStore { documents: Vec::new() }
    }

    /// The number of documents in the store.
    pub fn len(&self) -> (n: usize)
        ensures
            n == self@.len(),
    {
        self.documents.len()
    }

    /// Adds a document, unless it carries the version that stands for
    /// "latest" or one is stored under its address already. A refused
    /// document leaves the store as it was.
    pub fn insert(&mut self, doc: StoredDocument) -> (res: Result<(), StoreError>)
        ensures
            well_formed(old(self)@),
            well_formed(final(self)@),
            match res {
                Ok(()) => final(self)@ == old(self)@.push(doc@),
                Err(StoreError::ReservedVersion) => {
                    &&& doc@.version == ANY_VERSION
                    &&& final(self)@ == old(self)@
                },
                Err(StoreError::DuplicateAddress) => {
                    &&& doc@.version != ANY_VERSION
                    &&& exists|i: int|
                        0 <= i < old(self)@.len() && same_address(#[trigger] old(self)@[i], doc@)
                    &&& final(self)@ == old(self)@
                },
            },
    {
        proof {
            use_type_invariant(&*self);
        }
        if doc.version.is_latest() {
            return Err(StoreError::ReservedVersion);
        }
        let mut i: usize = 0;
        while i < self.documents.len()
            invariant
                i <= self.documents@.len(),
                *self == *old(self),
                well_formed(self@),
                forall|j: int| 0 <= j < i ==> !same_address(#[trigger] self@[j], doc@),
            decreases self.documents@.len() - i,
        {
            let d = &self.documents[i];
            if d.repo.to_int() == doc.repo.to_int() && d.role == doc.role && d.version.version()
                == doc.version.version() {
                assert(same_address(self@[i as int], doc@));
                return Err(StoreError::DuplicateAddress);
            }
            i += 1;
        }
        let mut documents: Vec<StoredDocument> = Vec::new();
        core::mem::swap(&mut self.documents, &mut documents);
        documents.push(doc);
        assert(documents@.map_values(|d: StoredDocument| d@) =~= old(self)@.push(doc@));
        self.documents = documents;
        Ok(())
    }

    /// The document that answers `address`, if there is one: the document
    /// stored under its repository, role and version, or, where it asks for
    /// the latest, the one of its repository and role with the greatest
    /// version. There is none exactly when no candidate is stored.
    pub fn resolve(&self, address: &MetadataAddress) -> (res: Option<&StoredDocument>)
        ensures
            well_formed(self@),
            res is Some <==> exists|i: int|
                0 <= i < self@.len() && is_candidate(#[trigger] self@[i], address@),
            res matches Some(d) ==> exists|i: int|
                #[trigger] answers(self@, address@, i) && self@[i] == d@,
    {
        proof {
            use_type_invariant(self);
        }
        let latest = address.version.is_latest();
        let mut best: Option<usize> = None;
        let mut i: usize = 0;
        while i < self.documents.len()
            invariant
                i <= self.documents@.len(),
                latest == (address@.version == ANY_VERSION),
                match best {
                    Some(b) => {
                        &&& b < i
                        &&& is_candidate(self@[b as int], address@)
                        &&& forall|j: int|
                            0 <= j < i && is_candidate(#[trigger] self@[j], address@)
                                ==> self@[j].version <= self@[b as int].version
                    },
                    None => forall|j: int|
                        0 <= j < i ==> !is_candidate(#[trigger] self@[j], address@),
                },
            decreases self.documents@.len() - i,
        {
            let d = &self.documents[i];
            if d.repo.to_int() == address.repo.to_int() && d.role == address.role && (latest
                || d.version.version() == address.version.version()) {
                let better = match best {
                    Some(b) => self.documents[b].version.version() < d.version.version(),
                    None => true,
                };
                if better {
                    best = Some(i);
                }
            }
            i += 1;
        }
        match best {
            Some(b) => {
                assert(answers(self@, address@, b as int));
                Some(&self.documents[b])
            },
            None => None,
        }
    }

    /// The bytes of the document that answers `address`, if there is one.
    pub fn get_document(&self, address: &MetadataAddress) -> (res: Option<&Vec<u8>>)
        ensures
            well_formed(self@),
            resolved(
                self@,
                address@,
                match res {
                    Some(meta) => Some(meta@),
                    None => None,
                },
            ),
    {
        match self.resolve(address) {
            Some(d) => Some(&d.meta),
            None => None,
        }
    }
}

/// In a store no two documents answer one address.
pub proof fn lemma_answer_is_unique(docs: Seq<DocumentView>, a: AddressView, i: int, j: int)
    requires
        well_formed(docs),
        answers(docs, a, i),
        answers(docs, a, j),
    ensures
        i == j,
{
    // Each of the two has the greatest version, so they have the same, and
    // two documents of one address are one.
    if i != j {
        assert(same_address(docs[i], docs[j]));
    }
}

/// Two stores that hold the same documents give the same answer to an
/// address, in whatever order each of them holds the documents.
pub proof fn lemma_answer_ignores_order(
    docs: Seq<DocumentView>,
    others: Seq<DocumentView>,
    a: AddressView,
    i: int,
    j: int,
)
    requires
        well_formed(docs),
        well_formed(others),
        forall|k: int| 0 <= k < docs.len() ==> others.contains(#[trigger] docs[k]),
        forall|k: int| 0 <= k < others.len() ==> docs.contains(#[trigger] others[k]),
        answers(docs, a, i),
        answers(others, a, j),
    ensures
        docs[i] == others[j],
{
    // The answer of each store is a candidate in the other, so neither has the
    // greater version; and two documents of one address are one.
    let j2 = choose|j2: int| 0 <= j2 < others.len() && others[j2] == docs[i];
    let i2 = choose|i2: int| 0 <= i2 < docs.len() && docs[i2] == others[j];
    assert(is_candidate(others[j2], a));
    assert(is_candidate(docs[i2], a));
    if j2 != j {
        assert(same_address(others[j2], others[j]));
    }
}

/// The document that answers a request for the latest version also answers
/// the request for its own version, and is the only document that does.
pub proof fn lemma_latest_is_pinned(docs: Seq<DocumentView>, a: AddressView, i: int)
    requires
        well_formed(docs),
        a.version == ANY_VERSION,
        answers(docs, a, i),
    ensures
        answers(docs, AddressView { repo: a.repo, role: a.role, version: docs[i].version }, i),
{
}

} // verus!
