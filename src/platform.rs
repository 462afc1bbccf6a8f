//! The platform registry: a platform is identified by the hash of its origin,
//! registered once, and afterwards renamed or handed over by its owner.
//!
//! Reads of an id that no platform is registered under do not fail: they
//! return empty strings and zero bytes (a zero owner). `only_existing_platform`
//! is the explicit existence check, which updates go through.
use vstd::prelude::*;
use vstd::utf8::encode_utf8;

use crate::bytes::{all_zero, keccak, keccak_of, Address, B256};
use crate::errors::Errors;
use crate::store::ByteMap;

verus! {

/// Announces a new platform.
#[derive(Clone, Copy, Debug, PartialEq, Eq)]
pub struct PlatformRegistered {
    pub platform_id: B256,
    pub owner: Address,
    pub content_type: [u8; 4],
}

/// What is known of a platform.
#[derive(Debug)]
pub struct PlatformMetadata {
    pub name: String,
    pub origin: String,
    pub owner: Address,
    pub content_type: [u8; 4],
}

/// The mathematical content of a `PlatformMetadata`.
pub struct PlatformMetadataView {
    pub name: Seq<char>,
    pub origin: Seq<char>,
    pub owner: Seq<u8>,
    pub content_type: Seq<u8>,
}

impl View for PlatformMetadata {
    type V = PlatformMetadataView;

    open spec fn view(&self) -> PlatformMetadataView {
        PlatformMetadataView {
            name: self.name@,
            origin: self.origin@,
            owner: self.owner@,
            content_type: self.content_type@,
        }
    }
}

impl PlatformMetadata {
    /// A copy of this record.
    pub fn duplicate(&self) -> (r: PlatformMetadata)
        ensures
            r@ == self@,
    {
        PlatformMetadata {
            name: self.name.clone(),
            origin: self.origin.clone(),
            owner: self.owner,
            content_type: self.content_type,
        }
    }
}

/// The id of the platform registered from `origin`: the keccak-256 hash of
/// its UTF-8 bytes.
pub open spec fn platform_id_of(origin: Seq<char>) -> Seq<u8> {
    keccak_of(encode_utf8(origin))
}

/// What an unregistered id reads as: empty strings and zero bytes.
pub open spec fn empty_metadata() -> PlatformMetadataView {
    PlatformMetadataView {
        name: Seq::empty(),
        origin: Seq::empty(),
        owner: Seq::new(20, |i: int| 0u8),
        content_type: Seq::new(4, |i: int| 0u8),
    }
}

/// The metadata stored under `id` in `m`, or the empty record.
pub open spec fn metadata_in(m: Map<Seq<u8>, PlatformMetadataView>, id: Seq<u8>) -> PlatformMetadataView {
    if m.contains_key(id) {
        m[id]
    } else {
        empty_metadata()
    }
}

/// A platform exists under `id` when its owner is not the zero address.
pub open spec fn registered_in(m: Map<Seq<u8>, PlatformMetadataView>, id: Seq<u8>) -> bool {
    !all_zero(metadata_in(m, id).owner)
}

/// The registry after registering a platform, or the error that stops it:
/// `PlatformAlreadyExists` if the origin's id is taken, then
/// `InvalidMetadata` for an empty name or a zero owner.
pub open spec fn create_outcome(
    m: Map<Seq<u8>, PlatformMetadataView>,
    name: Seq<char>,
    origin: Seq<char>,
    owner: Seq<u8>,
    content_type: Seq<u8>,
) -> Result<Map<Seq<u8>, PlatformMetadataView>, Errors> {
    let id = platform_id_of(origin);
    if registered_in(m, id) {
        Err(Errors::PlatformAlreadyExists)
    } else if name.len() == 0 || all_zero(owner) {
        Err(Errors::InvalidMetadata)
    } else {
        Ok(
            m.insert(
                id,
                PlatformMetadataView { name, origin, owner, content_type },
            ),
        )
    }
}

/// The registry after `caller` renames platform `id` and names its owner, or
/// the error that stops it: `PlatformDoesNotExist`, then `NotPlatformOwner`,
/// then `InvalidMetadata`.
pub open spec fn update_outcome(
    m: Map<Seq<u8>, PlatformMetadataView>,
    caller: Seq<u8>,
    id: Seq<u8>,
    name: Seq<char>,
    owner: Seq<u8>,
) -> Result<Map<Seq<u8>, PlatformMetadataView>, Errors> {
    let cur = metadata_in(m, id);
    if !registered_in(m, id) {
        Err(Errors::PlatformDoesNotExist)
    } else if cur.owner != caller {
        Err(Errors::NotPlatformOwner)
    } else if name.len() == 0 || all_zero(owner) {
        Err(Errors::InvalidMetadata)
    } else {
        Ok(m.insert(id, PlatformMetadataView { name, owner, ..cur }))
    }
}

pub struct PlatformContract {
    platform_data: ByteMap<PlatformMetadata>,
}

impl PlatformContract {
    /// The registered platforms by id.
    pub closed spec fn platforms(&self) -> Map<Seq<u8>, PlatformMetadataView> {
        self.platform_data.view().map_values(|m: PlatformMetadata| m@)
    }

    pub closed spec fn wf(&self) -> bool {
        self.platform_data.wf()
    }

    pub fn new() -> (r: PlatformContract)
        ensures
            r.wf(),
            r.platforms() == Map::<Seq<u8>, PlatformMetadataView>::empty(),
    {
        let r = PlatformContract { platform_data: ByteMap::new() };
        assert(r.platforms() =~= Map::<Seq<u8>, PlatformMetadataView>::empty());
        r
    }

    fn lookup(&self, platform_id: &B256) -> (r: Option<&PlatformMetadata>)
        requires
            self.wf(),
        ensures
            r.is_some() == self.platforms().contains_key(platform_id@),
            r.is_some() ==> r.unwrap()@ == self.platforms()[platform_id@],
    {
        self.platform_data.get(&platform_id.bytes)
    }

    /// Whether no platform is registered under `platform_id`.
    fn is_not_existent_platform(&self, platform_id: &B256) -> (r: bool)
        requires
            self.wf(),
        ensures
            r == !registered_in(self.platforms(), platform_id@),
    {
        match self.lookup(platform_id) {
            Some(m) => m.owner.is_zero(),
            None => {
                let z = Address::zero();
                assert(empty_metadata().owner =~= z@);
                true
            },
        }
    }

    /// Fails with `PlatformDoesNotExist` unless a platform is registered under `platform_id`.
    pub fn only_existing_platform(&self, platform_id: &B256) -> (r: Result<(), Errors>)
        requires
            self.wf(),
        ensures
            r is Ok <==> registered_in(self.platforms(), platform_id@),
            r is Err ==> r == Err::<(), Errors>(Errors::PlatformDoesNotExist),
    {
        if self.is_not_existent_platform(platform_id) {
            return Err(Errors::PlatformDoesNotExist);
        }
        Ok(())
    }

    /// The platform's owner; the zero address where none is registered.
    pub fn get_platform_owner(&self, platform_id: &B256) -> (r: Address)
        requires
            self.wf(),
        ensures
            r@ == metadata_in(self.platforms(), platform_id@).owner,
    {
        match self.lookup(platform_id) {
            Some(m) => m.owner,
            None => {
                let z = Address::zero();
                assert(empty_metadata().owner =~= z@);
                z
            },
        }
    }

    /// Registers a platform under the hash of its origin and returns the
    /// announcement, which carries the new id.
    pub fn create_platform(
        &mut self,
        name: String,
        origin: String,
        owner: Address,
        content_type: [u8; 4],
    ) -> (r: Result<PlatformRegistered, Errors>)
        requires
            old(self).wf(),
        ensures
            final(self).wf(),
            match create_outcome(old(self).platforms(), name@, origin@, owner@, content_type@) {
                Ok(m) => r is Ok && final(self).platforms() == m && r.unwrap().platform_id@
                    == platform_id_of(origin@) && r.unwrap().owner == owner
                    && r.unwrap().content_type == content_type,
                Err(e) => r == Err::<PlatformRegistered, Errors>(e) && final(self).platforms()
                    == old(self).platforms(),
            },
    {
        let platform_id = B256 { bytes: keccak(origin.as_str().as_bytes()) };
        if !self.is_not_existent_platform(&platform_id) {
            return Err(Errors::PlatformAlreadyExists);
        }
        if name.as_str().is_empty() || owner.is_zero() {
            return Err(Errors::InvalidMetadata);
        }
        let metadata = PlatformMetadata { name, origin, owner, content_type };
        let ghost v = metadata@;
        self.platform_data.insert(&platform_id.bytes, metadata);
        proof {
            assert(self.platforms() =~= old(self).platforms().insert(platform_id@, v));
        }
        Ok(PlatformRegistered { platform_id, owner, content_type })
    }

    /// Lets the platform's current owner rename it and name its owner.
    pub fn update_metadata(
        &mut self,
        caller: &Address,
        platform_id: &B256,
        name: String,
        owner: Address,
    ) -> (r: Result<(), Errors>)
        requires
            old(self).wf(),
        ensures
            final(self).wf(),
            match update_outcome(old(self).platforms(), caller@, platform_id@, name@, owner@) {
                Ok(m) => r is Ok && final(self).platforms() == m,
                Err(e) => r == Err::<(), Errors>(e) && final(self).platforms() == old(self).platforms(),
            },
    {
        match self.only_existing_platform(platform_id) {
            Ok(()) => {},
            Err(e) => return Err(e),
        }
        let current = match self.lookup(platform_id) {
            Some(m) => m.duplicate(),
            None => {
                return Err(Errors::PlatformDoesNotExist);
            },
        };
        if !current.owner.same_as(caller) {
            return Err(Errors::NotPlatformOwner);
        }
        if name.as_str().is_empty() || owner.is_zero() {
            return Err(Errors::InvalidMetadata);
        }
        let metadata = PlatformMetadata {
            name,
            origin: current.origin,
            owner,
            content_type: current.content_type,
        };
        let ghost v = metadata@;
        self.platform_data.insert(&platform_id.bytes, metadata);
        proof {
            assert(self.platforms() =~= old(self).platforms().insert(platform_id@, v));
        }
        Ok(())
    }

    /// Everything stored for `platform_id`; the empty record where none is registered.
    pub fn get_platform_metadata(&self, platform_id: &B256) -> (r: Result<PlatformMetadata, Errors>)
        requires
            self.wf(),
        ensures
            r is Ok,
            r.unwrap()@ == metadata_in(self.platforms(), platform_id@),
    {
        match self.lookup(platform_id) {
            Some(m) => Ok(m.duplicate()),
            None => {
                let r = PlatformMetadata {
                    name: String::new(),
                    origin: String::new(),
                    owner: Address::zero(),
                    content_type: [0u8; 4],
                };
                assert(r@.owner =~= empty_metadata().owner);
                assert(r@.content_type =~= empty_metadata().content_type);
                Ok(r)
            },
        }
    }

    /// The platform's name; empty where none is registered.
    pub fn get_platform_name(&self, platform_id: &B256) -> (r: Result<String, Errors>)
        requires
            self.wf(),
        ensures
            r is Ok,
            r.unwrap()@ == metadata_in(self.platforms(), platform_id@).name,
    {
        match self.get_platform_metadata(platform_id) {
            Ok(m) => Ok(m.name),
            Err(e) => Err(e),
        }
    }

    /// The platform's origin; empty where none is registered.
    pub fn get_platform_origin(&self, platform_id: &B256) -> (r: Result<String, Errors>)
        requires
            self.wf(),
        ensures
            r is Ok,
            r.unwrap()@ == metadata_in(self.platforms(), platform_id@).origin,
    {
        match self.get_platform_metadata(platform_id) {
            Ok(m) => Ok(m.origin),
            Err(e) => Err(e),
        }
    }
}

} // verus!
