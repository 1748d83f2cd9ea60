//! The tensors of a checkpoint, found by name.

use vstd::hash_map::StringHashMap;
use vstd::prelude::*;
use vstd::slice::slice_to_vec;

verus! {

/// Element type of a stored tensor.
#[derive(Clone, Copy, Debug, PartialEq, Eq, Structural)]
pub enum WeightDtype {
    BF16,
    FP32,
    FP8E4M3,
    FP8E8M0,
    UInt8,
}

impl WeightDtype {
    /// The name under which messages show the type.
    pub open spec fn spec_name(self) -> Seq<char> {
        match self {
            WeightDtype::BF16 => "BF16"@,
            WeightDtype::FP32 => "FP32"@,
            WeightDtype::FP8E4M3 => "FP8E4M3"@,
            WeightDtype::FP8E8M0 => "FP8E8M0"@,
            WeightDtype::UInt8 => "UInt8"@,
        }
    }

    /// The name under which messages show the type.
    pub fn name(self) -> (res: &'static str)
        ensures
            res@ == self.spec_name(),
    {
        match self {
            WeightDtype::BF16 => "BF16",
            WeightDtype::FP32 => "FP32",
            WeightDtype::FP8E4M3 => "FP8E4M3",
            WeightDtype::FP8E8M0 => "FP8E8M0",
            WeightDtype::UInt8 => "UInt8",
        }
    }

    /// The type that a safetensors header code of a quantized expert group stands for.
    /// Packed containers are bytes whether the header calls them signed or not.
    pub open spec fn spec_from_header_code(code: Seq<char>) -> Option<WeightDtype> {
        if code == "U8"@ || code == "I8"@ {
            Some(WeightDtype::UInt8)
        } else if code == "F8_E4M3"@ {
            Some(WeightDtype::FP8E4M3)
        } else if code == "F8_E8M0"@ {
            Some(WeightDtype::FP8E8M0)
        } else if code == "F32"@ {
            Some(WeightDtype::FP32)
        } else {
            None
        }
    }

    /// Reads a safetensors header code of a quantized expert group; `None` for a code
    /// that no tensor of such a group carries.
    pub fn from_header_code(code: &str) -> (res: Option<WeightDtype>)
        ensures
            res == Self::spec_from_header_code(code@),
            res is None <==> !(code@ == "U8"@ || code@ == "I8"@ || code@ == "F8_E4M3"@ || code@
                == "F8_E8M0"@ || code@ == "F32"@),
    {
        let code = code.to_owned();
        if code == "U8".to_owned() || code == "I8".to_owned() {
            Some(WeightDtype::UInt8)
        } else if code == "F8_E4M3".to_owned() {
            Some(WeightDtype::FP8E4M3)
        } else if code == "F8_E8M0".to_owned() {
            Some(WeightDtype::FP8E8M0)
        } else if code == "F32".to_owned() {
            Some(WeightDtype::FP32)
        } else {
            None
        }
    }
}

/// Header of a tensor: its element type and its shape.
#[derive(Debug, PartialEq, Eq)]
pub struct TensorHeader {
    pub dtype: WeightDtype,
    pub shape: Vec<usize>,
}

/// What a [`TensorHeader`] says.
#[verifier::ext_equal]
pub struct Header {
    pub dtype: WeightDtype,
    pub shape: Seq<usize>,
}

impl View for TensorHeader {
    type V = Header;

    open spec fn view(&self) -> Header {
        Header { dtype: self.dtype, shape: self.shape@ }
    }
}

/// The device address of a tensor whose payload is not loaded.
pub const NULL_PTR: u64 = 0;

/// A stored tensor: where its payload is, and what its header says.
#[derive(Debug, PartialEq, Eq)]
pub struct WeightTensor {
    /// Device address of the payload; [`NULL_PTR`] where there is none.
    pub ptr: u64,
    pub dtype: WeightDtype,
    pub shape: Vec<usize>,
}

/// What a [`WeightTensor`] says.
#[verifier::ext_equal]
pub struct Tensor {
    pub ptr: u64,
    pub header: Header,
}

impl View for WeightTensor {
    type V = Tensor;

    open spec fn view(&self) -> Tensor {
        Tensor { ptr: self.ptr, header: Header { dtype: self.dtype, shape: self.shape@ } }
    }
}

/// The tensor with this header and without a payload.
pub open spec fn unloaded(dtype: WeightDtype, shape: Seq<usize>) -> Tensor {
    Tensor { ptr: NULL_PTR, header: Header { dtype, shape } }
}

impl WeightTensor {
    /// A second tensor at the same device address, with the same element type and a copy
    /// of the shape. The payload is not copied.
    pub fn copy_header(&self) -> (res: WeightTensor)
        ensures
            res@ == self@,
            res.ptr == self.ptr,
            res.dtype == self.dtype,
            res.shape@ == self.shape@,
    {
        let shape = self.shape.clone();
        assert(shape@ =~= self.shape@);
        WeightTensor { ptr: self.ptr, dtype: self.dtype, shape }
    }

    /// The header alone.
    pub fn header(&self) -> (res: TensorHeader)
        ensures
            res@ == self@.header,
            res.dtype == self.dtype,
            res.shape@ == self.shape@,
    {
        let shape = self.shape.clone();
        assert(shape@ =~= self.shape@);
        TensorHeader { dtype: self.dtype, shape }
    }

    /// Whether the tensor has exactly this element type and this shape.
    pub fn is_exactly(&self, dtype: WeightDtype, shape: &[usize]) -> (res: bool)
        ensures
            res == (self@.header == (Header { dtype, shape: shape@ })),
            res <==> self.dtype == dtype && self.shape@ == shape@,
    {
        if self.dtype != dtype || self.shape.len() != shape.len() {
            return false;
        }
        let mut i: usize = 0;
        while i < shape.len()
            invariant
                i <= shape.len(),
                self.shape.len() == shape.len(),
                self.shape@.take(i as int) == shape@.take(i as int),
            decreases shape.len() - i,
        {
            if self.shape[i] != shape[i] {
                return false;
            }
            assert(self.shape@.take(i + 1) =~= self.shape@.take(i as int).push(self.shape[i as int]));
            assert(shape@.take(i + 1) =~= shape@.take(i as int).push(shape[i as int]));
            i = i + 1;
        }
        assert(self.shape@.take(i as int) =~= self.shape@);
        assert(shape@.take(i as int) =~= shape@);
        true
    }
}

/// The tensors of a checkpoint, each under its own name.
pub struct WeightStore {
    tensors: StringHashMap<WeightTensor>,
}

impl View for WeightStore {
    type V = Map<Seq<char>, Tensor>;

    closed spec fn view(&self) -> Map<Seq<char>, Tensor> {
        self.tensors@.map_values(|tensor: WeightTensor| tensor@)
    }
}

/// What a list of named tensors stores, each in place of earlier ones of its name.
pub open spec fn stored(entries: Seq<(Seq<char>, Tensor)>) -> Map<Seq<char>, Tensor>
    decreases entries.len(),
{
    if entries.len() == 0 {
        Map::empty()
    } else {
        stored(entries.drop_last()).insert(entries.last().0, entries.last().1)
    }
}

/// The named tensors, none of them loaded, that a list of names, element types and shapes
/// describes.
pub open spec fn listed_tensors(entries: Seq<(&str, WeightDtype, &[usize])>) -> Seq<
    (Seq<char>, Tensor),
> {
    entries.map_values(
        |entry: (&str, WeightDtype, &[usize])| (entry.0@, unloaded(entry.1, entry.2@)),
    )
}

/// Whether the header code of this table entry stands for an element type.
pub open spec fn known_code(entry: (String, String, Vec<usize>)) -> bool {
    WeightDtype::spec_from_header_code(entry.1@) is Some
}

/// The named tensors, none of them loaded, that a table of names, header codes and shapes
/// describes.
pub open spec fn tabled_tensors(headers: Seq<(String, String, Vec<usize>)>) -> Seq<
    (Seq<char>, Tensor),
> {
    headers.map_values(
        |entry: (String, String, Vec<usize>)|
            (entry.0@, unloaded(WeightDtype::spec_from_header_code(entry.1@)->0, entry.2@)),
    )
}

impl WeightStore {
    /// What the headers of the stored tensors say, whatever their addresses.
    pub open spec fn headers(&self) -> Map<Seq<char>, Header> {
        self@.map_values(|tensor: Tensor| tensor.header)
    }

    /// A store without tensors.
    pub fn new() -> (res: WeightStore)
        ensures
            res@ == Map::<Seq<char>, Tensor>::empty(),
    {
        let store = WeightStore { tensors: StringHashMap::new() };
        assert(store@ =~= Map::<Seq<char>, Tensor>::empty());
        store
    }

    /// A store of unloaded tensors with these names, element types and shapes. Of entries
    /// with one name the last counts.
    pub fn from_entries(entries: &[(&str, WeightDtype, &[usize])]) -> (res: WeightStore)
        ensures
            res@ == stored(listed_tensors(entries@)),
            forall|i: int|
                0 <= i < entries.len() && (forall|j: int|
                    i < j < entries.len() ==> (#[trigger] entries[j]).0@ != entries[i].0@) ==> {
                    &&& res@.contains_key((#[trigger] entries[i]).0@)
                    &&& res@[entries[i].0@].ptr == NULL_PTR
                    &&& res@[entries[i].0@].header.dtype == entries[i].1
                    &&& res@[entries[i].0@].header.shape == entries[i].2@
                },
    {
        let ghost tensors = listed_tensors(entries@);
        let mut store = WeightStore::new();
        let mut i: usize = 0;
        while i < entries.len()
            invariant
                i <= entries.len(),
                tensors == listed_tensors(entries@),
                store@ == stored(tensors.take(i as int)),
            decreases entries.len() - i,
        {
            let (name, dtype, shape) = entries[i];
            store.insert(
                name.to_owned(),
                WeightTensor { ptr: NULL_PTR, dtype, shape: slice_to_vec(shape) },
            );
            assert(tensors.take(i + 1).drop_last() =~= tensors.take(i as int));
            i = i + 1;
        }
        assert(tensors.take(i as int) =~= tensors);
        proof {
            assert forall|i: int|
                0 <= i < entries.len() && (forall|j: int|
                    i < j < entries.len() ==> (#[trigger] entries[j]).0@
                        != entries[i].0@) implies {
                &&& store@.contains_key((#[trigger] entries[i]).0@)
                &&& store@[entries[i].0@].ptr == NULL_PTR
                &&& store@[entries[i].0@].header.dtype == entries[i].1
                &&& store@[entries[i].0@].header.shape == entries[i].2@
            } by {
                law_listed_rows_are_stored(entries@, i);
            }
        }
        store
    }

    /// A store of unloaded tensors with these names, header codes and shapes. Of entries
    /// with one name the last counts. A table with a code that stands for no element type
    /// is refused whole, and the first such code is returned.
    pub fn from_headers(headers: &Vec<(String, String, Vec<usize>)>) -> (res: Result<
        WeightStore,
        String,
    >)
        ensures
            res is Ok <==> forall|i: int|
                0 <= i < headers.len() ==> known_code(#[trigger] headers[i]),
            match res {
                Ok(store) => {
                    &&& store@ == stored(tabled_tensors(headers@))
                    &&& forall|i: int|
                        0 <= i < headers.len() && (forall|j: int|
                            i < j < headers.len() ==> (#[trigger] headers[j]).0@
                                != headers[i].0@) ==> {
                            &&& store@.contains_key((#[trigger] headers[i]).0@)
                            &&& store@[headers[i].0@].ptr == NULL_PTR
                            &&& store@[headers[i].0@].header.shape == headers[i].2@
                            &&& Some(store@[headers[i].0@].header.dtype)
                                == WeightDtype::spec_from_header_code(headers[i].1@)
                        }
                },
                Err(code) => exists|i: int|
                    {
                        &&& 0 <= i < headers.len()
                        &&& !known_code(#[trigger] headers[i])
                        &&& code@ == headers[i].1@
                        &&& forall|j: int| 0 <= j < i ==> known_code(#[trigger] headers[j])
                    },
            },
    {
        let ghost tensors = tabled_tensors(headers@);
        let mut store = WeightStore::new();
        let mut i: usize = 0;
        while i < headers.len()
            invariant
                i <= headers.len(),
                tensors == tabled_tensors(headers@),
                forall|j: int| 0 <= j < i ==> known_code(#[trigger] headers[j]),
                store@ == stored(tensors.take(i as int)),
            decreases headers.len() - i,
        {
            let entry = &headers[i];
            let dtype = match WeightDtype::from_header_code(entry.1.as_str()) {
                None => {
                    assert(!known_code(headers[i as int]));
                    return Err(entry.1.clone());
                },
                Some(dtype) => dtype,
            };
            let shape = entry.2.clone();
            assert(shape@ =~= entry.2@);
            store.insert(entry.0.clone(), WeightTensor { ptr: NULL_PTR, dtype, shape });
            assert(tensors.take(i + 1).drop_last() =~= tensors.take(i as int));
            i = i + 1;
        }
        assert(tensors.take(i as int) =~= tensors);
        proof {
            assert forall|i: int|
                0 <= i < headers.len() && (forall|j: int|
                    i < j < headers.len() ==> (#[trigger] headers[j]).0@
                        != headers[i].0@) implies {
                &&& store@.contains_key((#[trigger] headers[i]).0@)
                &&& store@[headers[i].0@].ptr == NULL_PTR
                &&& store@[headers[i].0@].header.shape == headers[i].2@
                &&& Some(store@[headers[i].0@].header.dtype)
                    == WeightDtype::spec_from_header_code(headers[i].1@)
            } by {
                assert(known_code(headers[i]));
                law_tabled_rows_are_stored(headers@, i);
            }
        }
        Ok(store)
    }

    /// Puts `tensor` under `name`, in place of the one that was there.
    pub fn insert(&mut self, name: String, tensor: WeightTensor)
        ensures
            final(self)@ == old(self)@.insert(name@, tensor@),
    {
        self.tensors.insert(name, tensor);
        assert(self@ =~= old(self)@.insert(name@, tensor@));
    }

    /// The tensor under `name`.
    pub fn get(&self, name: &str) -> (res: Option<&WeightTensor>)
        ensures
            res is Some <==> self@.contains_key(name@),
            res matches Some(tensor) ==> tensor@ == self@[name@],
    {
        self.tensors.get(name)
    }

    /// Whether there is a tensor under `name`.
    pub fn contains(&self, name: &str) -> (res: bool)
        ensures
            res == self@.contains_key(name@),
    {
        self.tensors.contains_key(name)
    }
}

/// Law: a list of tensors stores the names that it lists, and no others.
pub proof fn law_stored_names_are_those_listed(
    entries: Seq<(Seq<char>, Tensor)>,
    name: Seq<char>,
)
    ensures
        stored(entries).contains_key(name) <==> exists|i: int|
            0 <= i < entries.len() && (#[trigger] entries[i]).0 == name,
    decreases entries.len(),
{
    if entries.len() > 0 {
        let rest = entries.drop_last();
        law_stored_names_are_those_listed(rest, name);
        assert(forall|i: int| 0 <= i < rest.len() ==> #[trigger] entries[i] == rest[i]);
        if entries.last().0 != name && stored(rest).contains_key(name) {
            let i = choose|i: int| 0 <= i < rest.len() && (#[trigger] rest[i]).0 == name;
            assert(entries[i].0 == name);
        }
        assert(entries[entries.len() - 1] == entries.last());
    }
}

/// Law: under each name stands the last tensor that was listed under it.
pub proof fn law_last_listed_tensor_is_stored(entries: Seq<(Seq<char>, Tensor)>, i: int)
    requires
        0 <= i < entries.len(),
        forall|j: int| i < j < entries.len() ==> (#[trigger] entries[j]).0 != entries[i].0,
    ensures
        stored(entries)[entries[i].0] == entries[i].1,
    decreases entries.len(),
{
    if i < entries.len() - 1 {
        let rest = entries.drop_last();
        assert(forall|j: int| 0 <= j < rest.len() ==> #[trigger] rest[j] == entries[j]);
        law_last_listed_tensor_is_stored(rest, i);
        assert(entries[entries.len() - 1].0 != entries[i].0);
    }
}

/// Law: the views show every field as it stands.
pub proof fn law_views_show_the_fields(tensor: WeightTensor, header: TensorHeader)
    ensures
        tensor@.ptr == tensor.ptr,
        tensor@.header.dtype == tensor.dtype,
        tensor@.header.shape == tensor.shape@,
        header@.dtype == header.dtype,
        header@.shape == header.shape@,
{
}

/// Law: the headers of a store are those of its tensors, under the same names.
pub proof fn law_headers_are_those_of_the_tensors(store: WeightStore, name: Seq<char>)
    ensures
        store.headers().contains_key(name) <==> store@.contains_key(name),
        store@.contains_key(name) ==> store.headers()[name].dtype == store@[name].header.dtype,
        store@.contains_key(name) ==> store.headers()[name].shape == store@[name].header.shape,
{
}

/// Law: five header codes stand for an element type, each for its own but that packed bytes
/// may be signed or not; every other code stands for none.
pub proof fn law_header_codes(code: Seq<char>)
    ensures
        WeightDtype::spec_from_header_code(code) == Some(WeightDtype::UInt8) <==> code == "U8"@
            || code == "I8"@,
        WeightDtype::spec_from_header_code(code) == Some(WeightDtype::FP8E4M3) <==> code
            == "F8_E4M3"@,
        WeightDtype::spec_from_header_code(code) == Some(WeightDtype::FP8E8M0) <==> code
            == "F8_E8M0"@,
        WeightDtype::spec_from_header_code(code) == Some(WeightDtype::FP32) <==> code == "F32"@,
        WeightDtype::spec_from_header_code(code) is None <==> code != "U8"@ && code != "I8"@
            && code != "F8_E4M3"@ && code != "F8_E8M0"@ && code != "F32"@,
{
    reveal_strlit("U8");
    reveal_strlit("I8");
    reveal_strlit("F8_E4M3");
    reveal_strlit("F8_E8M0");
    reveal_strlit("F32");
    assert("U8"@.len() == 2 && "I8"@.len() == 2 && "F32"@.len() == 3);
    assert("F8_E4M3"@.len() == 7 && "F8_E8M0"@.len() == 7);
    assert("F8_E4M3"@[4] == '4');
    assert("F8_E8M0"@[4] == '8');
}

/// Law: a table entry is known when its code is one of the five, and only then.
pub proof fn law_known_codes(entry: (String, String, Vec<usize>))
    ensures
        known_code(entry) <==> entry.1@ == "U8"@ || entry.1@ == "I8"@ || entry.1@ == "F8_E4M3"@
            || entry.1@ == "F8_E8M0"@ || entry.1@ == "F32"@,
{
    law_header_codes(entry.1@);
}

/// Law: a store made from a list has exactly the names of its rows.
pub proof fn law_listed_names(entries: Seq<(&str, WeightDtype, &[usize])>, name: Seq<char>)
    ensures
        stored(listed_tensors(entries)).contains_key(name) <==> exists|i: int|
            0 <= i < entries.len() && (#[trigger] entries[i]).0@ == name,
{
    let tensors = listed_tensors(entries);
    law_stored_names_are_those_listed(tensors, name);
    assert(forall|i: int| 0 <= i < entries.len() ==> (#[trigger] tensors[i]).0 == entries[i].0@);
    if stored(tensors).contains_key(name) {
        let i = choose|i: int| 0 <= i < tensors.len() && (#[trigger] tensors[i]).0 == name;
        assert(entries[i].0@ == name);
    }
    if exists|i: int| 0 <= i < entries.len() && (#[trigger] entries[i]).0@ == name {
        let i = choose|i: int| 0 <= i < entries.len() && (#[trigger] entries[i]).0@ == name;
        assert(tensors[i].0 == name);
    }
}

/// Law: a store made from a table has exactly the names of its rows.
pub proof fn law_tabled_names(headers: Seq<(String, String, Vec<usize>)>, name: Seq<char>)
    ensures
        stored(tabled_tensors(headers)).contains_key(name) <==> exists|i: int|
            0 <= i < headers.len() && (#[trigger] headers[i]).0@ == name,
{
    let tensors = tabled_tensors(headers);
    law_stored_names_are_those_listed(tensors, name);
    assert(forall|i: int| 0 <= i < headers.len() ==> (#[trigger] tensors[i]).0 == headers[i].0@);
    if stored(tensors).contains_key(name) {
        let i = choose|i: int| 0 <= i < tensors.len() && (#[trigger] tensors[i]).0 == name;
        assert(headers[i].0@ == name);
    }
    if exists|i: int| 0 <= i < headers.len() && (#[trigger] headers[i]).0@ == name {
        let i = choose|i: int| 0 <= i < headers.len() && (#[trigger] headers[i]).0@ == name;
        assert(tensors[i].0 == name);
    }
}

/// Law: a list row with no later row of its name is stored with its element type and its
/// shape, and without a payload.
pub proof fn law_listed_rows_are_stored(entries: Seq<(&str, WeightDtype, &[usize])>, i: int)
    requires
        0 <= i < entries.len(),
        forall|j: int| i < j < entries.len() ==> (#[trigger] entries[j]).0@ != entries[i].0@,
    ensures
        stored(listed_tensors(entries)).contains_key(entries[i].0@),
        stored(listed_tensors(entries))[entries[i].0@].ptr == 0,
        stored(listed_tensors(entries))[entries[i].0@].header.dtype == entries[i].1,
        stored(listed_tensors(entries))[entries[i].0@].header.shape == entries[i].2@,
{
    let tensors = listed_tensors(entries);
    assert forall|j: int| i < j < tensors.len() implies (#[trigger] tensors[j]).0
        != tensors[i].0 by {
        assert(entries[j].0@ != entries[i].0@);
    }
    law_last_listed_tensor_is_stored(tensors, i);
    law_listed_names(entries, entries[i].0@);
}

/// Law: a table row with no later row of its name is stored with the element type of its
/// code and with its shape as the row has it, and without a payload.
pub proof fn law_tabled_rows_are_stored(headers: Seq<(String, String, Vec<usize>)>, i: int)
    requires
        0 <= i < headers.len(),
        known_code(headers[i]),
        forall|j: int| i < j < headers.len() ==> (#[trigger] headers[j]).0@ != headers[i].0@,
    ensures
        stored(tabled_tensors(headers)).contains_key(headers[i].0@),
        ({
            let tensor = stored(tabled_tensors(headers))[headers[i].0@];
            &&& tensor.ptr == 0
            &&& tensor.header.shape == headers[i].2@
            &&& Some(tensor.header.dtype) == WeightDtype::spec_from_header_code(headers[i].1@)
            &&& tensor.header.dtype == WeightDtype::UInt8 <==> headers[i].1@ == "U8"@
                || headers[i].1@ == "I8"@
            &&& tensor.header.dtype == WeightDtype::FP8E4M3 <==> headers[i].1@ == "F8_E4M3"@
            &&& tensor.header.dtype == WeightDtype::FP8E8M0 <==> headers[i].1@ == "F8_E8M0"@
            &&& tensor.header.dtype == WeightDtype::FP32 <==> headers[i].1@ == "F32"@
        }),
{
    let tensors = tabled_tensors(headers);
    assert forall|j: int| i < j < tensors.len() implies (#[trigger] tensors[j]).0
        != tensors[i].0 by {
        assert(headers[j].0@ != headers[i].0@);
    }
    law_last_listed_tensor_is_stored(tensors, i);
    law_tabled_names(headers, headers[i].0@);
    law_header_codes(headers[i].1@);
}

} // verus!
