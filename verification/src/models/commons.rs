//! Structures shared between the backend payloads and the service model:
//! operations, decoded call data, and page metadata.

use vstd::prelude::*;

verus! {

/// The contract method names the settings-change decoding recognizes.
pub const SET_FALLBACK_HANDLER: &'static str = "setFallbackHandler";

pub const ADD_OWNER_WITH_THRESHOLD: &'static str = "addOwnerWithThreshold";

pub const REMOVE_OWNER: &'static str = "removeOwner";

pub const SWAP_OWNER: &'static str = "swapOwner";

pub const CHANGE_MASTER_COPY: &'static str = "changeMasterCopy";

pub const ENABLE_MODULE: &'static str = "enableModule";

pub const DISABLE_MODULE: &'static str = "disableModule";

pub const CHANGE_THRESHOLD: &'static str = "changeThreshold";

/// The method name of a multi-send batch, and its transactions parameter.
pub const MULTI_SEND: &'static str = "multiSend";

pub const MULTI_SEND_TRANSACTIONS_PARAM: &'static str = "transactions";

/// How a transaction calls its target.
#[derive(Debug, Clone, Copy, PartialEq, Eq, Structural)]
pub enum Operation {
    CALL,
    DELEGATE,
}

/// A decoded parameter value: a single string, or an array of values.
#[derive(Debug, PartialEq, Eq)]
pub enum ParamValue {
    SingleValue(String),
    ArrayValue(Vec<ParamValue>),
}

/// The decoded inner transactions of a multi-send parameter.
#[derive(Debug, PartialEq, Eq)]
pub enum ValueDecodedType {
    InternalTransaction(Vec<InternalTransaction>),
}

/// One inner transaction of a multi-send batch.
#[derive(Debug, PartialEq, Eq)]
pub struct InternalTransaction {
    pub to: String,
    pub value: Option<String>,
    pub data_decoded: Option<DataDecoded>,
}

/// One decoded parameter of a contract call.
#[derive(Debug, PartialEq, Eq)]
pub struct Parameter {
    pub name: String,
    pub value: ParamValue,
    pub value_decoded: Option<ValueDecodedType>,
}

/// A decoded contract call: the method name and its parameters.
#[derive(Debug, PartialEq, Eq)]
pub struct DataDecoded {
    pub method: String,
    pub parameters: Option<Vec<Parameter>>,
}

/// The single-string value of the parameter at a position, if there is one.
pub open spec fn param_single_value_at(d: DataDecoded, position: int) -> Option<Seq<char>> {
    match d.parameters {
        Some(ps) => if 0 <= position < ps@.len() {
            match ps@[position].value {
                ParamValue::SingleValue(v) => Some(v@),
                ParamValue::ArrayValue(_) => None,
            }
        } else {
            None
        },
        None => None,
    }
}

/// The single-string value of the first parameter with a name, skipping
/// parameters of that name whose value is an array.
pub open spec fn param_value_lookup(ps: Seq<Parameter>, name: Seq<char>) -> Option<Seq<char>>
    decreases ps.len(),
{
    if ps.len() == 0 {
        None
    } else {
        match ps[0].value {
            ParamValue::SingleValue(v) => if ps[0].name@ == name {
                Some(v@)
            } else {
                param_value_lookup(ps.skip(1), name)
            },
            ParamValue::ArrayValue(_) => param_value_lookup(ps.skip(1), name),
        }
    }
}

/// The decoded value of the first parameter with a name.
pub open spec fn param_value_decoded_at(ps: Seq<Parameter>, name: Seq<char>) -> Option<int> {
    if exists|i: int|
        0 <= i < ps.len() && ps[i].name@ == name && (forall|j: int|
            0 <= j < i ==> ps[j].name@ != name) {
        Some(
            choose|i: int|
                0 <= i < ps.len() && ps[i].name@ == name && (forall|j: int|
                    0 <= j < i ==> ps[j].name@ != name),
        )
    } else {
        None
    }
}

impl DataDecoded {
    /// Looks up the parameter at a position and returns its single value.
    pub fn get_parameter_single_value_at(&self, position: usize) -> (r: Option<String>)
        ensures
            match r {
                Some(v) => param_single_value_at(*self, position as int) == Some(v@),
                None => param_single_value_at(*self, position as int) is None,
            },
    {
        match &self.parameters {
            Some(ps) => {
                if position < ps.len() {
                    match &ps[position].value {
                        ParamValue::SingleValue(v) => Some(v.clone()),
                        ParamValue::ArrayValue(_) => None,
                    }
                } else {
                    None
                }
            },
            None => None,
        }
    }

    /// Whether some parameter bears this name.
    pub fn contains_parameter(&self, name: &str) -> (r: bool)
        ensures
            r == match self.parameters {
                Some(ps) => exists|i: int| 0 <= i < ps@.len() && ps@[i].name@ == name@,
                None => false,
            },
    {
        match self.parameters.as_ref() {
            Some(ps) => {
                proof {
                    assert(*ps == self.parameters->0);
                }
                let n = ps.len();
                let mut i: usize = 0;
                while i < n
                    invariant
                        self.parameters matches Some(p) && p == *ps,
                        n == ps@.len(),
                        i <= n,
                        forall|j: int| 0 <= j < i ==> ps@[j].name@ != name@,
                    decreases n - i,
                {
                    if crate::strutil::str_eq(ps[i].name.as_str(), name) {
                        proof {
                            assert(ps@[i as int].name@ == name@);
                        }
                        return true;
                    }
                    i += 1;
                }
                false
            },
            None => false,
        }
    }

    /// The single value of the first parameter with this name.
    pub fn get_parameter_value(&self, name: &str) -> (r: Option<String>)
        ensures
            match r {
                Some(v) => match self.parameters {
                    Some(ps) => param_value_lookup(ps@, name@) == Some(v@),
                    None => false,
                },
                None => match self.parameters {
                    Some(ps) => param_value_lookup(ps@, name@) is None,
                    None => true,
                },
            },
    {
        match self.parameters.as_ref() {
            Some(ps) => {
                proof {
                    assert(*ps == self.parameters->0);
                    assert(ps@.skip(0) =~= ps@);
                }
                let n = ps.len();
                let mut i: usize = 0;
                while i < n
                    invariant
                        self.parameters matches Some(p) && p == *ps,
                        n == ps@.len(),
                        i <= n,
                        param_value_lookup(ps@, name@) == param_value_lookup(
                            ps@.skip(i as int),
                            name@,
                        ),
                    decreases n - i,
                {
                    proof {
                        assert(ps@.skip(i as int).skip(1) =~= ps@.skip(i as int + 1));
                        assert(ps@.skip(i as int)[0] == ps@[i as int]);
                    }
                    match &ps[i].value {
                        ParamValue::SingleValue(v) => {
                            if crate::strutil::str_eq(ps[i].name.as_str(), name) {
                                proof {
                                    assert(param_value_lookup(ps@.skip(i as int), name@) == Some(
                                        v@,
                                    ));
                                }
                                return Some(v.clone());
                            }
                        },
                        ParamValue::ArrayValue(_) => {
                        },
                    }
                    i += 1;
                }
                proof {
                    assert(ps@.skip(n as int) =~= Seq::<Parameter>::empty());
                }
                None
            },
            None => None,
        }
    }

    /// A borrow of the decoded value of the first parameter with this name.
    pub fn get_parameter_value_decoded(&self, name: &str) -> (r: Option<&ValueDecodedType>)
        ensures
            match self.parameters {
                Some(ps) => match param_value_decoded_at(ps@, name@) {
                    Some(i) => match ps@[i].value_decoded {
                        Some(_) => r matches Some(v) && ps@[i].value_decoded == Some(*v),
                        None => r is None,
                    },
                    None => r is None,
                },
                None => r is None,
            },
    {
        match self.parameters.as_ref() {
            Some(ps) => {
                proof {
                    assert(*ps == self.parameters->0);
                }
                let n = ps.len();
                let mut i: usize = 0;
                while i < n
                    invariant
                        self.parameters matches Some(p) && p == *ps,
                        n == ps@.len(),
                        i <= n,
                        forall|j: int| 0 <= j < i ==> ps@[j].name@ != name@,
                    decreases n - i,
                {
                    if crate::strutil::str_eq(ps[i].name.as_str(), name) {
                        proof {
                            assert(ps@[i as int].name@ == name@ && (forall|j: int|
                                0 <= j < i ==> ps@[j].name@ != name@));
                            let w = choose|w: int|
                                0 <= w < ps@.len() && ps@[w].name@ == name@ && (forall|j: int|
                                    0 <= j < w ==> ps@[j].name@ != name@);
                            if w < i {
                                assert(ps@[w].name@ == name@);
                            }
                            assert(w == i);
                        }
                        return match &ps[i].value_decoded {
                            Some(v) => Some(v),
                            None => None,
                        };
                    }
                    i += 1;
                }
                None
            },
            None => None,
        }
    }

    /// Whether the method is an ERC-20 transfer call.
    pub fn is_erc20_transfer_method(&self) -> (r: bool)
        ensures
            r == (self.method@ == "transfer"@ || self.method@ == "transferFrom"@),
    {
        crate::strutil::str_eq(self.method.as_str(), "transfer") || crate::strutil::str_eq(
            self.method.as_str(),
            "transferFrom",
        )
    }

    /// Whether the method is an ERC-721 transfer call.
    pub fn is_erc721_transfer_method(&self) -> (r: bool)
        ensures
            r == (self.method@ == "safeTransferFrom"@),
    {
        crate::strutil::str_eq(self.method.as_str(), "safeTransferFrom")
    }

    /// Whether the method is one of the recognized settings-change calls.
    pub fn is_settings_change(&self) -> (r: bool)
        ensures
            r == is_settings_change_method(self.method@),
    {
        crate::strutil::str_eq(self.method.as_str(), SET_FALLBACK_HANDLER)
            || crate::strutil::str_eq(self.method.as_str(), ADD_OWNER_WITH_THRESHOLD)
            || crate::strutil::str_eq(self.method.as_str(), REMOVE_OWNER)
            || crate::strutil::str_eq(self.method.as_str(), SWAP_OWNER)
            || crate::strutil::str_eq(self.method.as_str(), CHANGE_MASTER_COPY)
            || crate::strutil::str_eq(self.method.as_str(), ENABLE_MODULE)
            || crate::strutil::str_eq(self.method.as_str(), DISABLE_MODULE)
            || crate::strutil::str_eq(self.method.as_str(), CHANGE_THRESHOLD)
    }
}

/// The settings-change method names.
pub open spec fn is_settings_change_method(m: Seq<char>) -> bool {
    ||| m == "setFallbackHandler"@
    ||| m == "addOwnerWithThreshold"@
    ||| m == "removeOwner"@
    ||| m == "swapOwner"@
    ||| m == "changeMasterCopy"@
    ||| m == "enableModule"@
    ||| m == "disableModule"@
    ||| m == "changeThreshold"@
}

/// Structural equivalence of parameter values, by content.
pub open spec fn pv_eqv(a: ParamValue, b: ParamValue) -> bool
    decreases a,
{
    match (a, b) {
        (ParamValue::SingleValue(x), ParamValue::SingleValue(y)) => x@ == y@,
        (ParamValue::ArrayValue(xs), ParamValue::ArrayValue(ys)) => xs@.len() == ys@.len()
            && forall|i: int| 0 <= i < xs@.len() ==> pv_eqv(#[trigger] xs@[i], ys@[i]),
        _ => false,
    }
}

/// Structural equivalence of decoded parameters, by content.
pub open spec fn param_eqv(a: Parameter, b: Parameter) -> bool
    decreases a,
{
    &&& a.name@ == b.name@
    &&& pv_eqv(a.value, b.value)
    &&& match (a.value_decoded, b.value_decoded) {
        (Some(x), Some(y)) => vdt_eqv(x, y),
        (None, None) => true,
        _ => false,
    }
}

/// Structural equivalence of decoded parameter values, by content.
pub open spec fn vdt_eqv(a: ValueDecodedType, b: ValueDecodedType) -> bool
    decreases a,
{
    match (a, b) {
        (
            ValueDecodedType::InternalTransaction(xs),
            ValueDecodedType::InternalTransaction(ys),
        ) => xs@.len() == ys@.len() && forall|i: int|
            0 <= i < xs@.len() ==> itx_eqv(#[trigger] xs@[i], ys@[i]),
    }
}

/// Structural equivalence of inner transactions, by content.
pub open spec fn itx_eqv(a: InternalTransaction, b: InternalTransaction) -> bool
    decreases a,
{
    &&& a.to@ == b.to@
    &&& match (a.value, b.value) {
        (Some(x), Some(y)) => x@ == y@,
        (None, None) => true,
        _ => false,
    }
    &&& match (a.data_decoded, b.data_decoded) {
        (Some(x), Some(y)) => dd_eqv(x, y),
        (None, None) => true,
        _ => false,
    }
}

/// Structural equivalence of decoded call data, by content.
pub open spec fn dd_eqv(a: DataDecoded, b: DataDecoded) -> bool
    decreases a,
{
    &&& a.method@ == b.method@
    &&& match (a.parameters, b.parameters) {
        (Some(xs), Some(ys)) => xs@.len() == ys@.len() && forall|i: int|
            0 <= i < xs@.len() ==> param_eqv(#[trigger] xs@[i], ys@[i]),
        (None, None) => true,
        _ => false,
    }
}

fn duplicate_param_value(a: &ParamValue) -> (r: ParamValue)
    ensures
        pv_eqv(*a, r),
    decreases *a,
{
    match a {
        ParamValue::SingleValue(v) => ParamValue::SingleValue(v.clone()),
        ParamValue::ArrayValue(vs) => {
            let n = vs.len();
            let mut out: Vec<ParamValue> = Vec::new();
            let mut i: usize = 0;
            while i < n
                invariant
                    n == vs@.len(),
                    i <= n,
                    out@.len() == i,
                    a matches ParamValue::ArrayValue(vs2) && vs2 == *vs,
                    forall|j: int| 0 <= j < i ==> pv_eqv(vs@[j], #[trigger] out@[j]),
                decreases n - i,
            {
                let d = duplicate_param_value(&vs[i]);
                proof {
                    assert(pv_eqv(vs@[i as int], d));
                }
                out.push(d);
                i += 1;
            }
            ParamValue::ArrayValue(out)
        },
    }
}

fn duplicate_internal_transaction(a: &InternalTransaction) -> (r: InternalTransaction)
    ensures
        itx_eqv(*a, r),
    decreases *a,
{
    InternalTransaction {
        to: a.to.clone(),
        value: match a.value.as_ref() {
            Some(v) => Some(v.clone()),
            None => None,
        },
        data_decoded: match a.data_decoded.as_ref() {
            Some(d) => Some(d.duplicate()),
            None => None,
        },
    }
}

fn duplicate_value_decoded(a: &ValueDecodedType) -> (r: ValueDecodedType)
    ensures
        vdt_eqv(*a, r),
    decreases *a,
{
    match a {
        ValueDecodedType::InternalTransaction(txs) => {
            let n = txs.len();
            let mut out: Vec<InternalTransaction> = Vec::new();
            let mut i: usize = 0;
            while i < n
                invariant
                    n == txs@.len(),
                    i <= n,
                    out@.len() == i,
                    a matches ValueDecodedType::InternalTransaction(txs2) && txs2 == *txs,
                    forall|j: int| 0 <= j < i ==> itx_eqv(txs@[j], #[trigger] out@[j]),
                decreases n - i,
            {
                let d = duplicate_internal_transaction(&txs[i]);
                out.push(d);
                i += 1;
            }
            ValueDecodedType::InternalTransaction(out)
        },
    }
}

fn duplicate_parameter(a: &Parameter) -> (r: Parameter)
    ensures
        param_eqv(*a, r),
    decreases *a,
{
    Parameter {
        name: a.name.clone(),
        value: duplicate_param_value(&a.value),
        value_decoded: match a.value_decoded.as_ref() {
            Some(v) => Some(duplicate_value_decoded(v)),
            None => None,
        },
    }
}

impl DataDecoded {
    /// A deep copy, equivalent in content.
    pub fn duplicate(&self) -> (r: DataDecoded)
        ensures
            dd_eqv(*self, r),
        decreases *self,
    {
        DataDecoded {
            method: self.method.clone(),
            parameters: match self.parameters.as_ref() {
                Some(ps) => {
                    let n = ps.len();
                    let mut out: Vec<Parameter> = Vec::new();
                    let mut i: usize = 0;
                    while i < n
                        invariant
                            n == ps@.len(),
                            i <= n,
                            out@.len() == i,
                            self.parameters matches Some(p) && p == *ps,
                            forall|j: int| 0 <= j < i ==> param_eqv(ps@[j], #[trigger] out@[j]),
                        decreases n - i,
                    {
                        let d = duplicate_parameter(&ps[i]);
                        out.push(d);
                        i += 1;
                    }
                    Some(out)
                },
                None => None,
            },
        }
    }
}

/// The limit/offset pair a page is addressed by.
#[derive(Debug, Clone, Copy, PartialEq, Eq, Structural)]
pub struct PageMetadata {
    pub limit: i64,
    pub offset: i64,
}

} // verus!
