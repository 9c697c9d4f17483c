//! The value wrapper: owns exactly one of the host runtime's tagged value
//! records between construction and destruction.
//!
//! The runtime's record is opaque; what this layer tracks of it — the kind
//! tag and the payload the record was initialized with — is carried as plain
//! values and modelled by [`ValueModel`].  A numeric record's payload is the
//! raw bit pattern of the runtime's 32-bit float, which this layer stores
//! but never interprets.  The embedding program converts between the
//! runtime's records and these values at the foreign boundary.

use vstd::prelude::*;

use crate::error::Error;
use crate::list::ByondValueList;

verus! {

/// What one value record holds, as mathematics.
pub enum ValueModel {
    /// The null value.
    Null,
    /// A number; `bits` is the raw bit pattern of the runtime's 32-bit
    /// float, never interpreted by this layer.
    Number { bits: u32 },
    /// A string; `text` is the characters handed to the constructor.
    Str { text: Seq<char> },
    /// A typed reference to an existing runtime object.
    Ref { tag: u8, id: u32 },
    /// A list-typed value holding the models of its elements, in order.
    List { items: Seq<ValueModel> },
}

/// Holds when no character of `text` is the null character, so the text can
/// become a null-terminated buffer without truncation.
pub open spec fn no_interior_nul(text: Seq<char>) -> bool {
    forall|i: int| 0 <= i < text.len() ==> text[i] != '\0'
}

/// The model of a list-typed value holding exactly `items`: what
/// materializing a list's contents as a single value produces.
pub open spec fn list_value_model(items: Seq<ValueModel>) -> ValueModel {
    ValueModel::List { items }
}

/// What reading a value out as a list yields: the element models when the
/// value is list-typed, nothing otherwise.
pub open spec fn value_list_model(v: ValueModel) -> Option<Seq<ValueModel>> {
    match v {
        ValueModel::List { items } => Some(items),
        _ => None,
    }
}

impl ValueModel {
    /// The record invariant every constructor establishes: string payloads
    /// hold no interior null character, recursively through lists.
    pub open spec fn wf(self) -> bool
        decreases self,
        via Self::wf_decreases
    {
        match self {
            ValueModel::Str { text } => no_interior_nul(text),
            ValueModel::List { items } => forall|i: int|
                0 <= i < items.len() ==> #[trigger] items[i].wf(),
            _ => true,
        }
    }

    #[via_fn]
    proof fn wf_decreases(self) {
        if let ValueModel::List { items } = self {
            assert forall|i: int| 0 <= i < items.len() implies decreases_to!(self => items[i]) by {
                assert(decreases_to!(self => self->List_items));
                assert(decreases_to!(items => items[i]));
            }
        }
    }
}

/// The payload a value record was initialized with.
pub(crate) enum ValueData {
    Null,
    Number(u32),
    Str(String),
    Ref(u8, u32),
    List(Vec<ByondValue>),
}

/// One initialized value record, exclusively owned.
pub struct ByondValue {
    pub(crate) data: ValueData,
}

/// The model of one value.
pub closed spec fn value_model(v: ByondValue) -> ValueModel
    decreases v,
    via value_model_decreases
{
    match v.data {
        ValueData::Null => ValueModel::Null,
        ValueData::Number(bits) => ValueModel::Number { bits },
        ValueData::Str(s) => ValueModel::Str { text: s@ },
        ValueData::Ref(tag, id) => ValueModel::Ref { tag, id },
        ValueData::List(items) => ValueModel::List {
            items: Seq::new(
                items@.len(),
                |i: int|
                    if 0 <= i < items@.len() {
                        value_model(items@[i])
                    } else {
                        ValueModel::Null
                    },
            ),
        },
    }
}

#[via_fn]
proof fn value_model_decreases(v: ByondValue) {
    if let ValueData::List(items) = v.data {
        assert forall|i: int| 0 <= i < items@.len() implies decreases_to!(v => items@[i]) by {
            assert(decreases_to!(v => v.data));
            assert(decreases_to!(v.data => v.data->List_0));
            assert(decreases_to!(items => items@));
            assert(decreases_to!(items@ => items@[i]));
        }
    }
}

/// The models of a sequence of values, element for element.
pub open spec fn models_of(items: Seq<ByondValue>) -> Seq<ValueModel> {
    Seq::new(items.len(), |i: int| value_model(items[i]))
}

impl View for ByondValue {
    type V = ValueModel;

    open spec fn view(&self) -> ValueModel {
        value_model(*self)
    }
}

impl Default for ByondValue {
    /// A default record is the null value.
    fn default() -> (r: ByondValue)
        ensures
            r@ == ValueModel::Null,
    {
        ByondValue { data: ValueData::Null }
    }
}

impl ByondValue {
    /// The record invariant, lifted to the wrapper.
    pub open spec fn wf(&self) -> bool {
        self@.wf()
    }

    /// A fresh record, initialized with no payload: the null value.
    pub fn new() -> (r: ByondValue)
        ensures
            r@ == ValueModel::Null,
            r.wf(),
    {
        ByondValue { data: ValueData::Null }
    }

    /// The null value.
    pub fn null() -> (r: ByondValue)
        ensures
            r@ == ValueModel::Null,
            r.wf(),
    {
        ByondValue { data: ValueData::Null }
    }

    /// A numeric value.  `bits` is the raw bit pattern of the runtime's
    /// 32-bit float; construction always succeeds and never consults the
    /// error translator.
    pub fn new_num(bits: u32) -> (r: ByondValue)
        ensures
            r@ == (ValueModel::Number { bits }),
            r.wf(),
    {
        ByondValue { data: ValueData::Number(bits) }
    }

    /// A value referring to an existing runtime object, by type tag and
    /// opaque numeric id.  Always succeeds at this layer; whether the
    /// reference is live is the runtime's concern.
    pub fn new_ref(typ: u8, id: u32) -> (r: ByondValue)
        ensures
            r@ == (ValueModel::Ref { tag: typ, id }),
            r.wf(),
    {
        ByondValue { data: ValueData::Ref(typ, id) }
    }

    /// A string value.  The text must become a null-terminated buffer for
    /// the runtime, so text holding an interior null character is rejected
    /// as [`Error::InvalidConversion`]; any other text succeeds.
    pub fn new_str(text: &str) -> (r: Result<ByondValue, Error>)
        ensures
            no_interior_nul(text@) ==> (r matches Ok(v) && v@ == (ValueModel::Str {
                text: text@,
            }) && v.wf()),
            !no_interior_nul(text@) ==> (r matches Err(e) && e == Error::InvalidConversion),
    {
        let n = text.unicode_len();
        let mut i: usize = 0;
        while i < n
            invariant
                n == text@.len(),
                i <= n,
                forall|j: int| 0 <= j < i ==> text@[j] != '\0',
            decreases n - i,
        {
            if text.get_char(i) == '\0' {
                return Err(Error::InvalidConversion);
            }
            i += 1;
        }
        Ok(ByondValue { data: ValueData::Str(text.to_owned()) })
    }

    /// A fresh, empty list-typed value: a null record mutated in place by
    /// the runtime's list creation into a list with no elements.
    pub fn new_list() -> (r: Result<ByondValue, Error>)
        ensures
            r matches Ok(v) && v@ == list_value_model(Seq::<ValueModel>::empty()) && v.wf(),
    {
        let v = ByondValue { data: ValueData::List(Vec::new()) };
        proof {
            assert(v@->List_items =~= Seq::<ValueModel>::empty());
        }
        Ok(v)
    }

    /// Reads this value out as a list: succeeds with the elements exactly
    /// when the value is list-typed, and is rejected as
    /// [`Error::InvalidConversion`] otherwise — no partially filled list
    /// escapes.
    pub fn into_list(self) -> (r: Result<ByondValueList, Error>)
        ensures
            value_list_model(self@) matches Some(items) ==> (r matches Ok(l) && l@ == items),
            value_list_model(self@) is None ==> (r matches Err(e) && e
                == Error::InvalidConversion),
    {
        let ghost m = self@;
        match self.data {
            ValueData::List(items) => {
                let l = ByondValueList::from_items(items);
                proof {
                    assert(l@ =~= m->List_items);
                }
                Ok(l)
            },
            _ => Err(Error::InvalidConversion),
        }
    }

    /// Wraps already-extracted list elements as a list-typed value.
    pub(crate) fn from_list_items(items: Vec<ByondValue>) -> (v: ByondValue)
        ensures
            v@ == (ValueModel::List { items: models_of(items@) }),
    {
        let v = ByondValue { data: ValueData::List(items) };
        proof {
            assert(v@->List_items =~= models_of(v.data->List_0@));
        }
        v
    }

    /// An independent copy of this record, as the runtime's list operations
    /// make when a value is stored into a list.
    pub(crate) fn copy_record(&self) -> (r: ByondValue)
        ensures
            r@ == self@,
        decreases *self,
    {
        match &self.data {
            ValueData::Null => ByondValue { data: ValueData::Null },
            ValueData::Number(bits) => ByondValue { data: ValueData::Number(*bits) },
            ValueData::Str(s) => ByondValue { data: ValueData::Str(s.clone()) },
            ValueData::Ref(tag, id) => ByondValue { data: ValueData::Ref(*tag, *id) },
            ValueData::List(items) => {
                let mut copied: Vec<ByondValue> = Vec::new();
                let mut i: usize = 0;
                while i < items.len()
                    invariant
                        i <= items@.len(),
                        copied@.len() == i,
                        forall|j: int| 0 <= j < i ==> copied@[j]@ == items@[j]@,
                        self.data is List,
                        *items == self.data->List_0,
                    decreases items@.len() - i,
                {
                    proof {
                        assert(decreases_to!(*self => self.data));
                        assert(decreases_to!(self.data => self.data->List_0));
                        assert(decreases_to!(*items => items@));
                        assert(decreases_to!(items@ => items@[i as int]));
                    }
                    let c = items[i].copy_record();
                    copied.push(c);
                    i += 1;
                }
                let r = ByondValue { data: ValueData::List(copied) };
                proof {
                    assert(r@->List_items =~= self@->List_items);
                    assert(r@ == self@);
                }
                r
            },
        }
    }

    /// Whether this value is the null value.
    pub fn is_null(&self) -> (r: bool)
        ensures
            r == (self@ is Null),
    {
        match &self.data {
            ValueData::Null => true,
            _ => false,
        }
    }

    /// Whether this value is numeric.
    pub fn is_num(&self) -> (r: bool)
        ensures
            r == (self@ is Number),
    {
        match &self.data {
            ValueData::Number(_) => true,
            _ => false,
        }
    }

    /// Whether this value is string-typed.
    pub fn is_str(&self) -> (r: bool)
        ensures
            r == (self@ is Str),
    {
        match &self.data {
            ValueData::Str(_) => true,
            _ => false,
        }
    }

    /// Whether this value is list-typed.
    pub fn is_list(&self) -> (r: bool)
        ensures
            r == (self@ is List),
    {
        match &self.data {
            ValueData::List(_) => true,
            _ => false,
        }
    }

    /// The raw bit pattern of a numeric value, and nothing for any other
    /// kind.
    pub fn num_bits(&self) -> (r: Option<u32>)
        ensures
            self@ matches ValueModel::Number { bits } ==> r == Some(bits),
            !(self@ is Number) ==> r is None,
    {
        match &self.data {
            ValueData::Number(bits) => Some(*bits),
            _ => None,
        }
    }
}

} // verus!
