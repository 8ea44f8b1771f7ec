//! The information-provider port: resolves account, contract, and address
//! metadata. Production deployments implement it against the indexing
//! service; the fixed provider here implements the same contract over
//! in-memory tables and backs the tests.

use vstd::prelude::*;

use crate::errors::ApiError;
use crate::string_map::StringMap;

verus! {

/// Display metadata of an address.
#[derive(Debug, PartialEq, Eq)]
pub struct AddressInfo {
    pub name: String,
    pub logo_uri: Option<String>,
}

/// The mathematical value of an [`AddressInfo`].
pub ghost struct AddressInfoV {
    pub name: Seq<char>,
    pub logo_uri: Option<Seq<char>>,
}

impl View for AddressInfo {
    type V = AddressInfoV;

    open spec fn view(&self) -> AddressInfoV {
        AddressInfoV {
            name: self.name@,
            logo_uri: match self.logo_uri {
                Some(u) => Some(u@),
                None => None,
            },
        }
    }
}

impl AddressInfo {
    /// A field-for-field copy.
    pub fn duplicate(&self) -> (r: AddressInfo)
        ensures
            r@ == self@,
    {
        AddressInfo {
            name: self.name.clone(),
            logo_uri: match &self.logo_uri {
                Some(u) => Some(u.clone()),
                None => None,
            },
        }
    }
}

/// Confirmation policy and membership of an account.
#[derive(Debug, PartialEq, Eq)]
pub struct SafeInfo {
    pub threshold: u64,
    pub nonce: u64,
    pub owners: Vec<String>,
}

/// The mathematical value of a [`SafeInfo`].
pub ghost struct SafeInfoV {
    pub threshold: u64,
    pub nonce: u64,
    pub owners: Seq<Seq<char>>,
}

impl View for SafeInfo {
    type V = SafeInfoV;

    open spec fn view(&self) -> SafeInfoV {
        SafeInfoV {
            threshold: self.threshold,
            nonce: self.nonce,
            owners: self.owners@.map_values(|s: String| s@),
        }
    }
}

/// Copies a vector of strings.
pub fn clone_string_vec(v: &Vec<String>) -> (r: Vec<String>)
    ensures
        r@.map_values(|s: String| s@) =~= v@.map_values(|s: String| s@),
{
    let n = v.len();
    let mut r: Vec<String> = Vec::new();
    let mut i: usize = 0;
    while i < n
        invariant
            n == v@.len(),
            i <= n,
            r@.len() == i,
            forall|j: int| 0 <= j < i ==> r@[j]@ == v@[j]@,
        decreases n - i,
    {
        r.push(v[i].clone());
        i += 1;
    }
    r
}

impl SafeInfo {
    /// A field-for-field copy.
    pub fn duplicate(&self) -> (r: SafeInfo)
        ensures
            r@ == self@,
    {
        let r = SafeInfo {
            threshold: self.threshold,
            nonce: self.nonce,
            owners: clone_string_vec(&self.owners),
        };
        proof {
            assert(r@.owners =~= self@.owners);
        }
        r
    }
}

/// The information-provider port.
///
/// Each method may fail — a production provider reaches over the network —
/// but whatever it returns is consistent with the provider's tables, which
/// no call changes.
pub trait InfoProvider: Sized {
    /// The accounts the provider knows.
    spec fn safes(&self) -> Map<Seq<char>, SafeInfoV>;

    /// The contracts the provider knows.
    spec fn contracts(&self) -> Map<Seq<char>, AddressInfoV>;

    /// The addresses the provider can fully resolve.
    spec fn addresses(&self) -> Map<Seq<char>, AddressInfoV>;

    /// Resolves an account.
    fn safe_info(&mut self, safe: &str) -> (r: Result<SafeInfo, ApiError>)
        ensures
            final(self).safes() == old(self).safes(),
            final(self).contracts() == old(self).contracts(),
            final(self).addresses() == old(self).addresses(),
            r matches Ok(si) ==> old(self).safes().contains_key(safe@) && si@ == old(
                self,
            ).safes()[safe@],
    ;

    /// Resolves a contract's display metadata.
    fn contract_info(&mut self, address: &str) -> (r: Result<AddressInfo, ApiError>)
        ensures
            final(self).safes() == old(self).safes(),
            final(self).contracts() == old(self).contracts(),
            final(self).addresses() == old(self).addresses(),
            r matches Ok(a) ==> old(self).contracts().contains_key(address@) && a@ == old(
                self,
            ).contracts()[address@],
    ;

    /// Resolves an address across every source the provider has.
    fn full_address_info_search(&mut self, address: &str) -> (r: Result<AddressInfo, ApiError>)
        ensures
            final(self).safes() == old(self).safes(),
            final(self).contracts() == old(self).contracts(),
            final(self).addresses() == old(self).addresses(),
            r matches Ok(a) ==> old(self).addresses().contains_key(address@) && a@ == old(
                self,
            ).addresses()[address@],
    ;
}

/// An information provider over fixed in-memory tables, used in tests.
pub struct FixedInfoProvider {
    safe_table: StringMap<SafeInfo>,
    contract_table: StringMap<AddressInfo>,
    address_table: StringMap<AddressInfo>,
}

impl FixedInfoProvider {
    /// A provider that knows nothing.
    pub fn new() -> (r: Self)
        ensures
            r.safes() == Map::<Seq<char>, SafeInfoV>::empty(),
            r.contracts() == Map::<Seq<char>, AddressInfoV>::empty(),
            r.addresses() == Map::<Seq<char>, AddressInfoV>::empty(),
    {
        FixedInfoProvider {
            safe_table: StringMap::new(),
            contract_table: StringMap::new(),
            address_table: StringMap::new(),
        }
    }

    /// Teaches the provider an account.
    pub fn add_safe(&mut self, safe: String, info: SafeInfo)
        ensures
            final(self).safes() == old(self).safes().insert(safe@, info@),
            final(self).contracts() == old(self).contracts(),
            final(self).addresses() == old(self).addresses(),
    {
        self.safe_table.insert(safe, info);
    }

    /// Teaches the provider a contract.
    pub fn add_contract(&mut self, address: String, info: AddressInfo)
        ensures
            final(self).contracts() == old(self).contracts().insert(address@, info@),
            final(self).safes() == old(self).safes(),
            final(self).addresses() == old(self).addresses(),
    {
        self.contract_table.insert(address, info);
    }

    /// Teaches the provider an address.
    pub fn add_address(&mut self, address: String, info: AddressInfo)
        ensures
            final(self).addresses() == old(self).addresses().insert(address@, info@),
            final(self).safes() == old(self).safes(),
            final(self).contracts() == old(self).contracts(),
    {
        self.address_table.insert(address, info);
    }
}

impl InfoProvider for FixedInfoProvider {
    closed spec fn safes(&self) -> Map<Seq<char>, SafeInfoV> {
        self.safe_table@
    }

    closed spec fn contracts(&self) -> Map<Seq<char>, AddressInfoV> {
        self.contract_table@
    }

    closed spec fn addresses(&self) -> Map<Seq<char>, AddressInfoV> {
        self.address_table@
    }

    fn safe_info(&mut self, safe: &str) -> (r: Result<SafeInfo, ApiError>) {
        match self.safe_table.get(safe) {
            Some(info) => Ok(info.duplicate()),
            None => Err(ApiError::Upstream { status: 404, body: String::new() }),
        }
    }

    fn contract_info(&mut self, address: &str) -> (r: Result<AddressInfo, ApiError>) {
        match self.contract_table.get(address) {
            Some(info) => Ok(info.duplicate()),
            None => Err(ApiError::Upstream { status: 404, body: String::new() }),
        }
    }

    fn full_address_info_search(&mut self, address: &str) -> (r: Result<AddressInfo, ApiError>) {
        match self.address_table.get(address) {
            Some(info) => Ok(info.duplicate()),
            None => Err(ApiError::Upstream { status: 404, body: String::new() }),
        }
    }
}

} // verus!
