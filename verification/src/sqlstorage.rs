//! The rules of the device database: what the rows that its queries return
//! mean.
//!
//! The program that owns the connection makes the queries and hands over what
//! they returned; nothing here reads the database.

use crate::crypto::{parsed_key_type, KeyType};
use crate::ecu_serial::{EcuSerial, EcuSerialError, ECU_SERIAL_MAX_LENGTH, ECU_SERIAL_MIN_LENGTH};
use crate::hardware_identifier::{HardwareIdentifier, HardwareIdentifierError, HWID_MAX_LENGTH};
use crate::metadata::{
    answers, is_candidate, AddressView, DocumentView, MetadataAddress, MetadataStore,
};
use crate::public_key::{absent_key, PublicKey, PublicKeyView};
use crate::secondary_info::{SecondaryInfo, SecondaryInfoView};
use crate::tuf_repository_type::{RepositoryType, Type};
use crate::tuf_roles::{standard_role, Role, RoleEnum, RoleView};
use crate::tuf_version::{Version, ANY_VERSION};
use crate::text::str_from_utf8;
use crate::types::{Ecu, EcuView};
use crate::validation::validated;
use vstd::prelude::*;
use vstd::string::*;
use vstd::utf8::*;

verus! {

/// The namespace of the rules of the device database.
pub struct SQLStorage;

/// A row of the table of ECUs, as it is stored.
#[derive(Debug)]
pub struct EcuRecord {
    pub id: i32,
    pub serial: String,
    pub hardware_id: String,
    pub is_primary: i32,
}

/// A row of the table of ECUs joined with what is stored of it as a
/// secondary. The columns of the secondary may be missing.
#[derive(Debug)]
pub struct SecondaryRecord {
    pub serial: String,
    pub hw_id: String,
    pub sec_type: Option<String>,
    pub public_key_type: Option<String>,
    pub public_key: Option<String>,
    pub extra: Option<String>,
}

/// The row of TLS credentials: three blobs that are passed on as they are.
#[derive(Debug)]
pub struct TlsCredentials {
    pub ca_cert: Vec<u8>,
    pub client_cert: Vec<u8>,
    pub client_pkey: Vec<u8>,
}

/// Why a row of the table of ECUs is refused.
#[derive(Debug, Clone, Copy, PartialEq, Eq, Structural)]
pub enum EcuRecordError {
    /// The serial number breaks its bounds.
    Serial(EcuSerialError),
    /// The hardware identifier breaks its bound.
    HardwareId(HardwareIdentifierError),
}

/// Why a stored document is not handed out: its bytes are not UTF-8 text.
#[derive(Debug, Clone, Copy, PartialEq, Eq, Structural)]
pub struct DocumentError;

/// The text of a column that may be missing; a missing one is empty.
pub open spec fn text_or_empty(column: Option<String>) -> Seq<char> {
    match column {
        Some(s) => s@,
        None => Seq::<char>::empty(),
    }
}

/// The key of a secondary: the stored text with the kind that the stored name
/// stands for, or the key of which no record exists where either is missing.
pub open spec fn secondary_key(key_type: Option<String>, key: Option<String>) -> PublicKeyView {
    match (key_type, key) {
        (Some(t), Some(k)) => PublicKeyView { value: k@, key_type: parsed_key_type(t@) },
        _ => absent_key(),
    }
}

/// The secondary that a row describes. An identifier that breaks its bounds
/// is replaced by the one that stands for an unknown identifier, so that one
/// bad row does not hide the others.
pub open spec fn secondary_of_record(r: SecondaryRecord) -> SecondaryInfoView {
    SecondaryInfoView {
        serial: match validated(
            r.serial@,
            ECU_SERIAL_MIN_LENGTH as int,
            ECU_SERIAL_MAX_LENGTH as int,
        ) {
            Ok(text) => text,
            Err(_) => "Unknown"@,
        },
        hw_id: match validated(r.hw_id@, 0, HWID_MAX_LENGTH as int) {
            Ok(text) => text,
            Err(_) => "Unknown"@,
        },
        kind: text_or_empty(r.sec_type),
        pub_key: secondary_key(r.public_key_type, r.public_key),
        extra: text_or_empty(r.extra),
    }
}

/// The ECU that a row describes, or why the row is refused. The serial number
/// is looked at first. Any number but 0 marks the primary ECU.
pub open spec fn ecu_of_record(r: EcuRecord) -> Result<EcuView, EcuRecordError> {
    match validated(r.serial@, ECU_SERIAL_MIN_LENGTH as int, ECU_SERIAL_MAX_LENGTH as int) {
        Err(e) => Err(EcuRecordError::Serial(EcuSerialError(e))),
        Ok(serial) => match validated(r.hardware_id@, 0, HWID_MAX_LENGTH as int) {
            Err(_) => Err(EcuRecordError::HardwareId(HardwareIdentifierError)),
            Ok(hardware_id) => Ok(
                EcuView { id: r.id as int, serial, hardware_id, is_primary: r.is_primary != 0 },
            ),
        },
    }
}

/// Whether a row of TLS credentials is there and holds anything: a row of
/// three empty blobs counts as none.
pub open spec fn tls_present(row: Option<TlsCredentials>) -> bool {
    row matches Some(r) && !(r.ca_cert@.len() == 0 && r.client_cert@.len() == 0
        && r.client_pkey@.len() == 0)
}

/// The address of the document of `role` in `repo` at the version `version`.
pub open spec fn address_of(repo: Type, role: RoleEnum, version: int) -> AddressView {
    AddressView { repo, role: standard_role(role), version }
}

/// Whether `res` is what a request for `a` is answered with: nothing where no
/// candidate is stored, the text of the document that answers it where its
/// bytes are UTF-8, and an error where they are not.
pub open spec fn loaded(
    docs: Seq<DocumentView>,
    a: AddressView,
    res: Result<Option<String>, DocumentError>,
) -> bool {
    match res {
        Ok(None) => forall|i: int| 0 <= i < docs.len() ==> !is_candidate(#[trigger] docs[i], a),
        Ok(Some(text)) => exists|i: int|
            #[trigger] answers(docs, a, i) && docs[i].meta == encode_utf8(text@),
        Err(_) => exists|i: int| #[trigger] answers(docs, a, i) && !valid_utf8(docs[i].meta),
    }
}

impl DocumentError {
    /// What the error says.
    pub fn to_string(&self) -> (message: String)
        ensures
            message@ == "stored document is not UTF-8 text"@,
    {
        String::from_str("stored document is not UTF-8 text")
    }
}

impl SQLStorage {
    /// The primary's public key, of unknown kind, from the stored text; none
    /// where no text is stored.
    pub fn load_primary_key(public: Option<String>) -> (res: Option<PublicKey>)
        ensures
            match public {
                Some(text) => res matches Some(key) && key@ == (PublicKeyView {
                    value: text@,
                    key_type: KeyType::Unknown,
                }),
                None => res is None,
            },
    {
        match public {
            Some(text) => Some(PublicKey::new(text.as_str(), KeyType::Unknown)),
            None => None,
        }
    }

    /// The primary's public key, of unknown kind, and its private key, where
    /// both are stored; none where either is missing.
    pub fn load_primary_keys(
        public: Option<String>,
        private: Option<String>,
    ) -> (res: Option<(PublicKey, String)>)
        ensures
            match (public, private) {
                (Some(text), Some(secret)) => {
                    &&& res matches Some((key, private_key))
                    &&& key@ == (PublicKeyView { value: text@, key_type: KeyType::Unknown })
                    &&& private_key == secret
                },
                _ => res is None,
            },
    {
        match (public, private) {
            (Some(text), Some(secret)) => Some(
                (PublicKey::new(text.as_str(), KeyType::Unknown), secret),
            ),
            _ => None,
        }
    }

    /// Hands out the TLS credentials of the stored row and says whether there
    /// were any. Without a row, or with a row of three empty blobs, nothing is
    /// handed out and the answer is `false`.
    pub fn load_tls_credentials(
        row: Option<TlsCredentials>,
        ca: &mut Vec<u8>,
        cert: &mut Vec<u8>,
        pkey: &mut Vec<u8>,
    ) -> (loaded: bool)
        ensures
            loaded == tls_present(row),
            loaded ==> *final(ca) == row->0.ca_cert && *final(cert) == row->0.client_cert
                && *final(pkey) == row->0.client_pkey,
            !loaded ==> *final(ca) == *old(ca) && *final(cert) == *old(cert) && *final(pkey)
                == *old(pkey),
    {
        match row {
            Some(r) => {
                if r.ca_cert.len() == 0 && r.client_cert.len() == 0 && r.client_pkey.len() == 0 {
                    false
                } else {
                    *ca = r.ca_cert;
                    *cert = r.client_cert;
                    *pkey = r.client_pkey;
                    true
                }
            },
            None => false,
        }
    }

    /// Whether the device is registered: a flag is stored and is not 0.
    pub fn load_ecu_registered(flag: Option<i32>) -> (registered: bool)
        ensures
            registered == (flag matches Some(f) && f != 0),
    {
        match flag {
            Some(f) => f != 0,
            None => false,
        }
    }

    /// The ECU that a row describes, or why the row is refused.
    pub fn ecu_from_record(record: &EcuRecord) -> (res: Result<Ecu, EcuRecordError>)
        ensures
            match ecu_of_record(*record) {
                Ok(view) => res matches Ok(ecu) && ecu@ == view,
                Err(e) => res matches Err(f) && f == e,
            },
    {
        let serial = match EcuSerial::new(record.serial.as_str()) {
            Ok(serial) => serial,
            Err(e) => {
                return Err(EcuRecordError::Serial(e));
            },
        };
        let hardware_id = match HardwareIdentifier::new(record.hardware_id.as_str()) {
            Ok(hardware_id) => hardware_id,
            Err(e) => {
                return Err(EcuRecordError::HardwareId(e));
            },
        };
        Ok(Ecu { id: record.id, serial, hardware_id, is_primary: record.is_primary != 0 })
    }

    /// The ECUs that the rows describe, in their order. The first row that is
    /// refused fails the whole list with its error.
    pub fn load_ecus(rows: &Vec<EcuRecord>) -> (res: Result<Vec<Ecu>, EcuRecordError>)
        ensures
            match res {
                Ok(ecus) => {
                    &&& ecus@.len() == rows@.len()
                    &&& forall|i: int|
                        0 <= i < rows@.len() ==> ecu_of_record(#[trigger] rows@[i]) == Ok::<
                            EcuView,
                            EcuRecordError,
                        >(ecus@[i]@)
                },
                Err(e) => exists|i: int|
                    {
                        &&& 0 <= i < rows@.len()
                        &&& ecu_of_record(#[trigger] rows@[i]) == Err::<EcuView, EcuRecordError>(e)
                        &&& forall|j: int| 0 <= j < i ==> ecu_of_record(#[trigger] rows@[j]) is Ok
                    },
            },
    {
        let mut ecus: Vec<Ecu> = Vec::new();
        let mut i: usize = 0;
        while i < rows.len()
            invariant
                i <= rows@.len(),
                ecus@.len() == i,
                forall|j: int|
                    0 <= j < i ==> ecu_of_record(#[trigger] rows@[j]) == Ok::<
                        EcuView,
                        EcuRecordError,
                    >(ecus@[j]@),
            decreases rows@.len() - i,
        {
            match Self::ecu_from_record(&rows[i]) {
                Ok(ecu) => {
                    ecus.push(ecu);
                },
                Err(e) => {
                    return Err(e);
                },
            }
            i += 1;
        }
        Ok(ecus)
    }

    /// The secondary that a row describes. No row is refused: an identifier
    /// that breaks its bounds is replaced by the one that stands for an
    /// unknown identifier, and a key of which the kind or the text is missing
    /// by the key of which no record exists.
    pub fn secondary_from_record(record: &SecondaryRecord) -> (info: SecondaryInfo)
        ensures
            info@ == secondary_of_record(*record),
    {
        let serial = match EcuSerial::new(record.serial.as_str()) {
            Ok(serial) => serial,
            Err(_) => EcuSerial::unknown(),
        };
        let hw_id = match HardwareIdentifier::new(record.hw_id.as_str()) {
            Ok(hw_id) => hw_id,
            Err(_) => HardwareIdentifier::unknown(),
        };
        let pub_key = match (&record.public_key_type, &record.public_key) {
            (Some(key_type_str), Some(key_value)) => {
                let key_type = match KeyType::from_str(key_type_str.as_str()) {
                    Ok(key_type) => key_type,
                    Err(_) => KeyType::Unknown,
                };
                PublicKey::new(key_value.as_str(), key_type)
            },
            _ => PublicKey::default(),
        };
        let sec_type = match &record.sec_type {
            Some(sec_type) => sec_type.clone(),
            None => String::new(),
        };
        let extra = match &record.extra {
            Some(extra) => extra.clone(),
            None => String::new(),
        };
        SecondaryInfo::new(serial, hw_id, sec_type, pub_key, extra)
    }

    /// Appends to `secondaries` the secondaries that the rows describe, in
    /// their order, and says whether there was any.
    pub fn load_secondaries_info(
        rows: &Vec<SecondaryRecord>,
        secondaries: &mut Vec<SecondaryInfo>,
    ) -> (loaded: bool)
        ensures
            loaded == (rows@.len() > 0),
            final(secondaries)@.len() == old(secondaries)@.len() + rows@.len(),
            forall|i: int|
                0 <= i < old(secondaries)@.len() ==> final(secondaries)@[i] == old(
                    secondaries,
                )@[i],
            forall|i: int|
                0 <= i < rows@.len() ==> (#[trigger] final(secondaries)@[old(secondaries)@.len()
                    + i])@ == secondary_of_record(rows@[i]),
    {
        let mut empty = true;
        let mut i: usize = 0;
        while i < rows.len()
            invariant
                i <= rows@.len(),
                empty == (i == 0),
                secondaries@.len() == old(secondaries)@.len() + i,
                forall|j: int|
                    0 <= j < old(secondaries)@.len() ==> secondaries@[j] == old(secondaries)@[j],
                forall|j: int|
                    0 <= j < i ==> (#[trigger] secondaries@[old(secondaries)@.len() + j])@
                        == secondary_of_record(rows@[j]),
            decreases rows@.len() - i,
        {
            let info = Self::secondary_from_record(&rows[i]);
            secondaries.push(info);
            empty = false;
            i += 1;
        }
        !empty
    }

    /// The text of a stored document, which has to be UTF-8.
    pub fn document_text(meta: &Vec<u8>) -> (res: Result<String, DocumentError>)
        ensures
            match res {
                Ok(text) => meta@ == encode_utf8(text@),
                Err(_) => !valid_utf8(meta@),
            },
    {
        match str_from_utf8(meta.as_slice()) {
            Ok(text) => Ok(String::from_str(text)),
            Err(_) => Err(DocumentError),
        }
    }

    /// The root document of `repo` at `version`, or its latest root document
    /// where `version` asks for the latest; none where no such document is
    /// stored.
    pub fn load_root_internal(
        store: &MetadataStore,
        repo: RepositoryType,
        version: Version,
    ) -> (res: Result<Option<String>, DocumentError>)
        ensures
            loaded(store@, address_of(repo.kind(), RoleEnum::Root, version.value()), res),
    {
        let address = MetadataAddress::new(repo, Role::root(), Some(version));
        Self::load_document(store, &address)
    }

    /// The latest document of `role` in `repo`; none where no such document is
    /// stored.
    pub fn load_non_root_internal(
        store: &MetadataStore,
        repo: RepositoryType,
        role: Role,
    ) -> (res: Result<Option<String>, DocumentError>)
        ensures
            loaded(
                store@,
                AddressView { repo: repo.kind(), role: role@, version: ANY_VERSION as int },
                res,
            ),
    {
        let address = MetadataAddress::new(repo, role, None);
        Self::load_document(store, &address)
    }

    /// The document that answers `address`, as text.
    fn load_document(store: &MetadataStore, address: &MetadataAddress) -> (res: Result<
        Option<String>,
        DocumentError,
    >)
        ensures
            loaded(store@, address@, res),
    {
        match store.resolve(address) {
            Some(document) => match Self::document_text(&document.meta) {
                Ok(text) => Ok(Some(text)),
                Err(e) => Err(e),
            },
            None => Ok(None),
        }
    }

    /// The latest root document of the image repository.
    pub fn load_image_root(store: &MetadataStore) -> (res: Result<Option<String>, DocumentError>)
        ensures
            loaded(store@, address_of(Type::Image, RoleEnum::Root, ANY_VERSION as int), res),
    {
        Self::load_root_internal(store, RepositoryType::image(), Version::new())
    }

    /// The latest root document of the director repository.
    pub fn load_director_root(store: &MetadataStore) -> (res: Result<
        Option<String>,
        DocumentError,
    >)
        ensures
            loaded(store@, address_of(Type::Director, RoleEnum::Root, ANY_VERSION as int), res),
    {
        Self::load_root_internal(store, RepositoryType::director(), Version::new())
    }

    /// The latest targets document of the director repository.
    pub fn load_director_targets(store: &MetadataStore) -> (res: Result<
        Option<String>,
        DocumentError,
    >)
        ensures
            loaded(store@, address_of(Type::Director, RoleEnum::Targets, ANY_VERSION as int), res),
    {
        Self::load_non_root_internal(store, RepositoryType::director(), Role::targets())
    }

    /// The latest snapshot document of the image repository.
    pub fn load_image_snapshot(store: &MetadataStore) -> (res: Result<
        Option<String>,
        DocumentError,
    >)
        ensures
            loaded(store@, address_of(Type::Image, RoleEnum::Snapshot, ANY_VERSION as int), res),
    {
        Self::load_non_root_internal(store, RepositoryType::image(), Role::snapshot())
    }

    /// The latest timestamp document of the image repository.
    pub fn load_image_timestamp(store: &MetadataStore) -> (res: Result<
        Option<String>,
        DocumentError,
    >)
        ensures
            loaded(store@, address_of(Type::Image, RoleEnum::Timestamp, ANY_VERSION as int), res),
    {
        Self::load_non_root_internal(store, RepositoryType::image(), Role::timestamp())
    }

    /// The latest targets document of the image repository.
    pub fn load_image_targets(store: &MetadataStore) -> (res: Result<
        Option<String>,
        DocumentError,
    >)
        ensures
            loaded(store@, address_of(Type::Image, RoleEnum::Targets, ANY_VERSION as int), res),
    {
        Self::load_non_root_internal(store, RepositoryType::image(), Role::targets())
    }
}

} // verus!
