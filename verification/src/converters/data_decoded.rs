//! Decoding settings-change calls and collecting address metadata out of
//! decoded call data.

use vstd::prelude::*;

use crate::models::commons::{
    param_single_value_at, DataDecoded, InternalTransaction, ParamValue, Parameter,
    ValueDecodedType, MULTI_SEND_TRANSACTIONS_PARAM,
};
use crate::models::service::SettingsInfo;
use crate::providers::{AddressInfo, AddressInfoV, InfoProvider};
use crate::string_map::StringMap;
use crate::strutil::{parse_u64, parse_u64_spec, str_eq};

verus! {

/// An index from addresses to their display metadata.
pub type AddressInfoIndex = StringMap<AddressInfo>;

/// Whether an optional address info is consistent with the provider's
/// contract table: whatever metadata is present came from the table; the
/// lookup itself may always have failed.
pub open spec fn addr_info_opt_rel(
    oi: Option<AddressInfo>,
    m: Map<Seq<char>, AddressInfoV>,
    a: Seq<char>,
) -> bool {
    match oi {
        Some(ai) => m.contains_key(a) && ai@ == m[a],
        None => true,
    }
}

/// What decoding a settings-change call returns, by method name. Parameter
/// positions follow the contract ABI; a missing or unparsable parameter
/// yields nothing. Metadata fields hold whatever the provider's contract
/// table answered, when it answered.
pub open spec fn settings_info_rel(
    d: DataDecoded,
    contracts: Map<Seq<char>, AddressInfoV>,
    r: Option<SettingsInfo>,
) -> bool {
    if d.method@ == "setFallbackHandler"@ {
        match param_single_value_at(d, 0) {
            Some(h) => match r {
                Some(
                    SettingsInfo::SetFallbackHandler { handler, handler_info },
                ) => handler@ == h && addr_info_opt_rel(handler_info, contracts, h),
                _ => false,
            },
            None => r is None,
        }
    } else if d.method@ == "addOwnerWithThreshold"@ {
        match (param_single_value_at(d, 0), param_single_value_at(d, 1)) {
            (Some(o), Some(t)) => match parse_u64_spec(t) {
                Some(thr) => match r {
                    Some(
                        SettingsInfo::AddOwner { owner, owner_info, threshold },
                    ) => owner@ == o && owner_info is None && threshold == thr,
                    _ => false,
                },
                None => r is None,
            },
            _ => r is None,
        }
    } else if d.method@ == "removeOwner"@ {
        match (param_single_value_at(d, 1), param_single_value_at(d, 2)) {
            (Some(o), Some(t)) => match parse_u64_spec(t) {
                Some(thr) => match r {
                    Some(
                        SettingsInfo::RemoveOwner { owner, owner_info, threshold },
                    ) => owner@ == o && owner_info is None && threshold == thr,
                    _ => false,
                },
                None => r is None,
            },
            _ => r is None,
        }
    } else if d.method@ == "swapOwner"@ {
        match (param_single_value_at(d, 1), param_single_value_at(d, 2)) {
            (Some(ow), Some(nw)) => match r {
                Some(
                    SettingsInfo::SwapOwner {
                        old_owner,
                        old_owner_info,
                        new_owner,
                        new_owner_info,
                    },
                ) => old_owner@ == ow && old_owner_info is None && new_owner@ == nw
                    && new_owner_info is None,
                _ => false,
            },
            _ => r is None,
        }
    } else if d.method@ == "changeMasterCopy"@ {
        match param_single_value_at(d, 0) {
            Some(im) => match r {
                Some(
                    SettingsInfo::ChangeImplementation { implementation, implementation_info },
                ) => implementation@ == im && addr_info_opt_rel(implementation_info, contracts, im),
                _ => false,
            },
            None => r is None,
        }
    } else if d.method@ == "enableModule"@ {
        match param_single_value_at(d, 0) {
            Some(m) => match r {
                Some(
                    SettingsInfo::EnableModule { module, module_info },
                ) => module@ == m && addr_info_opt_rel(module_info, contracts, m),
                _ => false,
            },
            None => r is None,
        }
    } else if d.method@ == "disableModule"@ {
        match param_single_value_at(d, 1) {
            Some(m) => match r {
                Some(
                    SettingsInfo::DisableModule { module, module_info },
                ) => module@ == m && addr_info_opt_rel(module_info, contracts, m),
                _ => false,
            },
            None => r is None,
        }
    } else if d.method@ == "changeThreshold"@ {
        match param_single_value_at(d, 0) {
            Some(t) => match parse_u64_spec(t) {
                Some(thr) => match r {
                    Some(SettingsInfo::ChangeThreshold { threshold }) => threshold == thr,
                    _ => false,
                },
                None => r is None,
            },
            None => r is None,
        }
    } else {
        r is None
    }
}

impl DataDecoded {
    /// Decodes the call as the settings change it performs, resolving
    /// contract metadata through the provider where the change names a
    /// contract.
    pub fn to_settings_info<P: InfoProvider>(&self, info_provider: &mut P) -> (r: Option<
        SettingsInfo,
    >)
        ensures
            final(info_provider).safes() == old(info_provider).safes(),
            final(info_provider).contracts() == old(info_provider).contracts(),
            final(info_provider).addresses() == old(info_provider).addresses(),
            settings_info_rel(*self, old(info_provider).contracts(), r),
    {
        if str_eq(self.method.as_str(), crate::models::commons::SET_FALLBACK_HANDLER) {
            match self.get_parameter_single_value_at(0) {
                Some(handler) => {
                    let handler_info = match info_provider.contract_info(handler.as_str()) {
                        Ok(a) => Some(a),
                        Err(_) => None,
                    };
                    Some(SettingsInfo::SetFallbackHandler { handler_info, handler })
                },
                None => None,
            }
        } else if str_eq(self.method.as_str(), crate::models::commons::ADD_OWNER_WITH_THRESHOLD) {
            match (self.get_parameter_single_value_at(0), self.get_parameter_single_value_at(1)) {
                (Some(owner), Some(t)) => match parse_u64(t.as_str()) {
                    Some(threshold) => Some(
                        SettingsInfo::AddOwner { owner_info: None, owner, threshold },
                    ),
                    None => None,
                },
                _ => None,
            }
        } else if str_eq(self.method.as_str(), crate::models::commons::REMOVE_OWNER) {
            match (self.get_parameter_single_value_at(1), self.get_parameter_single_value_at(2)) {
                (Some(owner), Some(t)) => match parse_u64(t.as_str()) {
                    Some(threshold) => Some(
                        SettingsInfo::RemoveOwner { owner_info: None, owner, threshold },
                    ),
                    None => None,
                },
                _ => None,
            }
        } else if str_eq(self.method.as_str(), crate::models::commons::SWAP_OWNER) {
            match (self.get_parameter_single_value_at(1), self.get_parameter_single_value_at(2)) {
                (Some(old_owner), Some(new_owner)) => Some(
                    SettingsInfo::SwapOwner {
                        old_owner_info: None,
                        old_owner,
                        new_owner_info: None,
                        new_owner,
                    },
                ),
                _ => None,
            }
        } else if str_eq(self.method.as_str(), crate::models::commons::CHANGE_MASTER_COPY) {
            match self.get_parameter_single_value_at(0) {
                Some(implementation) => {
                    let implementation_info = match info_provider.contract_info(
                        implementation.as_str(),
                    ) {
                        Ok(a) => Some(a),
                        Err(_) => None,
                    };
                    Some(SettingsInfo::ChangeImplementation { implementation_info, implementation })
                },
                None => None,
            }
        } else if str_eq(self.method.as_str(), crate::models::commons::ENABLE_MODULE) {
            match self.get_parameter_single_value_at(0) {
                Some(module) => {
                    let module_info = match info_provider.contract_info(module.as_str()) {
                        Ok(a) => Some(a),
                        Err(_) => None,
                    };
                    Some(SettingsInfo::EnableModule { module_info, module })
                },
                None => None,
            }
        } else if str_eq(self.method.as_str(), crate::models::commons::DISABLE_MODULE) {
            match self.get_parameter_single_value_at(1) {
                Some(module) => {
                    let module_info = match info_provider.contract_info(module.as_str()) {
                        Ok(a) => Some(a),
                        Err(_) => None,
                    };
                    Some(SettingsInfo::DisableModule { module_info, module })
                },
                None => None,
            }
        } else if str_eq(self.method.as_str(), crate::models::commons::CHANGE_THRESHOLD) {
            match self.get_parameter_single_value_at(0) {
                Some(t) => match parse_u64(t.as_str()) {
                    Some(threshold) => Some(SettingsInfo::ChangeThreshold { threshold }),
                    None => None,
                },
                None => None,
            }
        } else {
            None
        }
    }
}

/// Whether a parameter value can name an address worth indexing: 42
/// characters, `0x`-prefixed, and not the zero address.
pub open spec fn addr_candidate(v: Seq<char>) -> bool {
    &&& v.len() == 42
    &&& v.take(2) == "0x"@
    &&& v != "0x0000000000000000000000000000000000000000"@
}

/// Whether a parameter value names a string: as its own single value, or
/// as a single value one level inside an array value. Values nested
/// deeper inside arrays are not visited and name nothing.
pub open spec fn param_offers(v: ParamValue, k: Seq<char>) -> bool {
    match v {
        ParamValue::SingleValue(s) => s@ == k,
        ParamValue::ArrayValue(vs) => exists|j: int|
            0 <= j < vs@.len() && ((#[trigger] vs@[j]) matches ParamValue::SingleValue(s) && s@
                == k),
    }
}

/// Whether some parameter of an optional list names a string.
pub open spec fn params_offer(parameters: Option<Vec<Parameter>>, k: Seq<char>) -> bool {
    match parameters {
        Some(ps) => exists|i: int|
            0 <= i < ps@.len() && param_offers((#[trigger] ps@[i]).value, k),
        None => false,
    }
}

/// The inner transactions of a multi-send batch: the decoded value of its
/// first `transactions` parameter, when one is there.
pub open spec fn multi_send_inner(d: DataDecoded) -> Option<Seq<InternalTransaction>> {
    match d.parameters {
        Some(ps) => match crate::models::commons::param_value_decoded_at(ps@, "transactions"@) {
            Some(i) => match ps@[i].value_decoded {
                Some(ValueDecodedType::InternalTransaction(txs)) => Some(txs@),
                None => None,
            },
            None => None,
        },
        None => None,
    }
}

/// Whether the call data names a string among the values the index walk
/// visits: for a multi-send batch, each inner transaction's target and
/// the values its own decoded parameters name; for any other call, the
/// values the call's parameters name.
pub open spec fn call_data_offers(d: DataDecoded, k: Seq<char>) -> bool {
    if d.method@ == "multiSend"@ {
        match multi_send_inner(d) {
            Some(txs) => exists|i: int|
                0 <= i < txs.len() && ((#[trigger] txs[i]).to@ == k || (
                txs[i].data_decoded matches Some(dd) && params_offer(dd.parameters, k))),
            None => false,
        }
    } else {
        params_offer(d.parameters, k)
    }
}

/// How an address index may grow: nothing is lost or overwritten, and
/// every new entry is a candidate address resolved from the provider's
/// address table.
pub open spec fn index_grew_soundly(
    m0: Map<Seq<char>, AddressInfoV>,
    m1: Map<Seq<char>, AddressInfoV>,
    addresses: Map<Seq<char>, AddressInfoV>,
) -> bool {
    &&& m0.submap_of(m1)
    &&& forall|k: Seq<char>|
        #[trigger] m1.contains_key(k) && !m0.contains_key(k) ==> addr_candidate(k)
            && addresses.contains_key(k) && m1[k] == addresses[k]
}

/// Sound growth composes.
proof fn lemma_grew_trans(
    m0: Map<Seq<char>, AddressInfoV>,
    m1: Map<Seq<char>, AddressInfoV>,
    m2: Map<Seq<char>, AddressInfoV>,
    addresses: Map<Seq<char>, AddressInfoV>,
)
    requires
        index_grew_soundly(m0, m1, addresses),
        index_grew_soundly(m1, m2, addresses),
    ensures
        index_grew_soundly(m0, m2, addresses),
{
    assert(m0.submap_of(m2)) by {
        assert forall|k: Seq<char>| #[trigger] m0.dom().contains(k) implies m2.dom().contains(k)
            && m2[k] == m0[k] by {
            assert(m1.dom().contains(k) && m1[k] == m0[k]);
            assert(m2.dom().contains(k) && m2[k] == m1[k]);
        }
    }
    assert forall|k: Seq<char>| #[trigger] m2.contains_key(k) && !m0.contains_key(k) implies
        addr_candidate(k) && addresses.contains_key(k) && m2[k] == addresses[k] by {
        if m1.contains_key(k) {
            assert(addr_candidate(k) && addresses.contains_key(k) && m1[k] == addresses[k]);
            assert(m1.dom().contains(k));
            assert(m2[k] == m1[k]);
        } else {
            assert(addr_candidate(k) && addresses.contains_key(k) && m2[k] == addresses[k]);
        }
    }
}

/// Adds one candidate address to the index, when the provider can resolve
/// it; values that are not address-shaped, the zero address, and addresses
/// already indexed are left alone.
pub fn insert_value_into_index<P: InfoProvider>(
    value: &String,
    index: &mut AddressInfoIndex,
    info_provider: &mut P,
)
    ensures
        final(info_provider).safes() == old(info_provider).safes(),
        final(info_provider).contracts() == old(info_provider).contracts(),
        final(info_provider).addresses() == old(info_provider).addresses(),
        index_grew_soundly(old(index)@, final(index)@, old(info_provider).addresses()),
        !(addr_candidate(value@) && !old(index)@.contains_key(value@)) ==> final(index)@ == old(
            index,
        )@,
        forall|k: Seq<char>|
            #[trigger] final(index)@.contains_key(k) ==> old(index)@.contains_key(k) || k
                == value@,
{
    let len = value.as_str().unicode_len();
    if len != 42 {
        return ;
    }
    if !(value.as_str().get_char(0) == '0' && value.as_str().get_char(1) == 'x') {
        proof {
            reveal_strlit("0x");
            assert(value@.take(2) != "0x"@) by {
                if value@.take(2) == "0x"@ {
                    assert(value@.take(2)[0] == '0' && value@.take(2)[1] == 'x');
                }
            }
        }
        return ;
    }
    proof {
        reveal_strlit("0x");
        assert(value@.take(2) =~= "0x"@);
    }
    if str_eq(value.as_str(), "0x0000000000000000000000000000000000000000") {
        return ;
    }
    if index.contains_key(value.as_str()) {
        return ;
    }
    match info_provider.full_address_info_search(value.as_str()) {
        Ok(address_info) => {
            index.insert(value.clone(), address_info);
        },
        Err(_) => {
        },
    }
}

/// Walks a parameter list and indexes every candidate address it names,
/// in single values and one level inside array values. A missing list
/// leaves the index untouched, and every key the index gains is a value
/// the parameters name.
pub fn put_parameter_into_index<P: InfoProvider>(
    parameters: &Option<Vec<Parameter>>,
    index: &mut AddressInfoIndex,
    info_provider: &mut P,
)
    ensures
        final(info_provider).safes() == old(info_provider).safes(),
        final(info_provider).contracts() == old(info_provider).contracts(),
        final(info_provider).addresses() == old(info_provider).addresses(),
        index_grew_soundly(old(index)@, final(index)@, old(info_provider).addresses()),
        parameters is None ==> final(index)@ == old(index)@,
        forall|k: Seq<char>|
            #[trigger] final(index)@.contains_key(k) && !old(index)@.contains_key(k)
                ==> params_offer(*parameters, k),
{
    match parameters.as_ref() {
        Some(ps) => {
            proof {
                assert(*ps == (*parameters)->0);
            }
            let n = ps.len();
            let mut i: usize = 0;
            while i < n
                invariant
                    *parameters matches Some(p) && p == *ps,
                    n == ps@.len(),
                    i <= n,
                    info_provider.safes() == old(info_provider).safes(),
                    info_provider.contracts() == old(info_provider).contracts(),
                    info_provider.addresses() == old(info_provider).addresses(),
                    index_grew_soundly(old(index)@, index@, old(info_provider).addresses()),
                    forall|k: Seq<char>|
                        #[trigger] index@.contains_key(k) && !old(index)@.contains_key(k)
                            ==> params_offer(*parameters, k),
                decreases n - i,
            {
                let ghost mid = index@;
                match &ps[i].value {
                    ParamValue::SingleValue(value) => {
                        insert_value_into_index(value, index, info_provider);
                        proof {
                            lemma_grew_trans(
                                old(index)@,
                                mid,
                                index@,
                                old(info_provider).addresses(),
                            );
                            assert(ps@[i as int].value matches ParamValue::SingleValue(s) && s
                                == *value);
                            assert forall|k: Seq<char>|
                                #[trigger] index@.contains_key(k) && !old(index)@.contains_key(
                                    k,
                                ) implies params_offer(*parameters, k) by {
                                if !mid.contains_key(k) {
                                    assert(k == value@);
                                    assert(param_offers(ps@[i as int].value, k));
                                }
                            }
                        }
                    },
                    ParamValue::ArrayValue(values) => {
                        proof {
                            assert(ps@[i as int].value matches ParamValue::ArrayValue(vs) && vs
                                == *values);
                        }
                        let m = values.len();
                        let mut j: usize = 0;
                        while j < m
                            invariant
                                *parameters matches Some(p) && p == *ps,
                                i < ps@.len(),
                                ps@[i as int].value matches ParamValue::ArrayValue(vs) && vs
                                    == *values,
                                m == values@.len(),
                                j <= m,
                                info_provider.safes() == old(info_provider).safes(),
                                info_provider.contracts() == old(info_provider).contracts(),
                                info_provider.addresses() == old(info_provider).addresses(),
                                index_grew_soundly(
                                    old(index)@,
                                    index@,
                                    old(info_provider).addresses(),
                                ),
                                forall|k: Seq<char>|
                                    #[trigger] index@.contains_key(k) && !old(
                                        index,
                                    )@.contains_key(k) ==> params_offer(*parameters, k),
                            decreases m - j,
                        {
                            let ghost inner_mid = index@;
                            match &values[j] {
                                ParamValue::SingleValue(value) => {
                                    insert_value_into_index(value, index, info_provider);
                                    proof {
                                        lemma_grew_trans(
                                            old(index)@,
                                            inner_mid,
                                            index@,
                                            old(info_provider).addresses(),
                                        );
                                        assert(values@[j as int] matches ParamValue::SingleValue(
                                            s,
                                        ) && s == *value);
                                        assert forall|k: Seq<char>|
                                            #[trigger] index@.contains_key(k) && !old(
                                                index,
                                            )@.contains_key(k) implies params_offer(
                                            *parameters,
                                            k,
                                        ) by {
                                            if !inner_mid.contains_key(k) {
                                                assert(k == value@);
                                                assert(param_offers(ps@[i as int].value, k));
                                            }
                                        }
                                    }
                                },
                                ParamValue::ArrayValue(_) => {
                                },
                            }
                            j += 1;
                        }
                    },
                }
                i += 1;
            }
        },
        None => {
        },
    }
}

impl DataDecoded {
    /// Collects the addresses a call names, resolved through the provider.
    ///
    /// A multi-send batch is walked one inner transaction at a time, its
    /// target address and decoded parameters both; any other call is
    /// walked over its own parameters. Every key of the index is a value
    /// the call data names. An index with nothing in it is reported as no
    /// index at all.
    pub fn build_address_info_index<P: InfoProvider>(&self, info_provider: &mut P) -> (r: Option<
        AddressInfoIndex,
    >)
        ensures
            final(info_provider).safes() == old(info_provider).safes(),
            final(info_provider).contracts() == old(info_provider).contracts(),
            final(info_provider).addresses() == old(info_provider).addresses(),
            match r {
                Some(idx) => idx@ != Map::<Seq<char>, AddressInfoV>::empty()
                    && index_grew_soundly(
                    Map::<Seq<char>, AddressInfoV>::empty(),
                    idx@,
                    old(info_provider).addresses(),
                ) && (forall|k: Seq<char>|
                    #[trigger] idx@.contains_key(k) ==> call_data_offers(*self, k)),
                None => true,
            },
    {
        let mut index: AddressInfoIndex = StringMap::new();
        if str_eq(self.method.as_str(), crate::models::commons::MULTI_SEND) {
            proof {
                assert(self.method@ == "multiSend"@);
            }
            match self.get_parameter_value_decoded(MULTI_SEND_TRANSACTIONS_PARAM) {
                Some(value_decoded_type) => match value_decoded_type {
                    ValueDecodedType::InternalTransaction(transactions) => {
                        proof {
                            assert(*value_decoded_type == ValueDecodedType::InternalTransaction(
                                *transactions,
                            ));
                            assert(multi_send_inner(*self) == Some(transactions@));
                        }
                        let n = transactions.len();
                        let mut i: usize = 0;
                        while i < n
                            invariant
                                self.method@ == "multiSend"@,
                                multi_send_inner(*self) == Some(transactions@),
                                n == transactions@.len(),
                                i <= n,
                                info_provider.safes() == old(info_provider).safes(),
                                info_provider.contracts() == old(info_provider).contracts(),
                                info_provider.addresses() == old(info_provider).addresses(),
                                index_grew_soundly(
                                    Map::<Seq<char>, AddressInfoV>::empty(),
                                    index@,
                                    old(info_provider).addresses(),
                                ),
                                forall|k: Seq<char>|
                                    #[trigger] index@.contains_key(k) ==> call_data_offers(
                                        *self,
                                        k,
                                    ),
                            decreases n - i,
                        {
                            let ghost mid = index@;
                            insert_value_into_index(&transactions[i].to, &mut index, info_provider);
                            proof {
                                lemma_grew_trans(
                                    Map::<Seq<char>, AddressInfoV>::empty(),
                                    mid,
                                    index@,
                                    old(info_provider).addresses(),
                                );
                                assert forall|k: Seq<char>|
                                    #[trigger] index@.contains_key(k) implies call_data_offers(
                                    *self,
                                    k,
                                ) by {
                                    if !mid.contains_key(k) {
                                        assert(k == transactions@[i as int].to@);
                                    }
                                }
                            }
                            let ghost mid2 = index@;
                            match transactions[i].data_decoded.as_ref() {
                                Some(data_decoded) => {
                                    proof {
                                        assert(*data_decoded == transactions@[i as int]
                                            .data_decoded->0);
                                    }
                                    put_parameter_into_index(
                                        &data_decoded.parameters,
                                        &mut index,
                                        info_provider,
                                    );
                                    proof {
                                        lemma_grew_trans(
                                            Map::<Seq<char>, AddressInfoV>::empty(),
                                            mid2,
                                            index@,
                                            old(info_provider).addresses(),
                                        );
                                        assert forall|k: Seq<char>|
                                            #[trigger] index@.contains_key(
                                                k,
                                            ) implies call_data_offers(*self, k) by {
                                            if !mid2.contains_key(k) {
                                                assert(params_offer(data_decoded.parameters, k));
                                                assert(transactions@[i as int]
                                                    .data_decoded matches Some(dd) && dd
                                                    == *data_decoded);
                                            }
                                        }
                                    }
                                },
                                None => {
                                },
                            }
                            i += 1;
                        }
                    },
                },
                None => {
                },
            }
        } else {
            proof {
                assert(self.method@ != "multiSend"@);
            }
            put_parameter_into_index(&self.parameters, &mut index, info_provider);
        }
        if index.is_empty() {
            None
        } else {
            Some(index)
        }
    }
}

} // verus!
