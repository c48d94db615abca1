//! Device properties of identifier-addressed devices.
use crate::internal::c_utils::{decode_utf8_lossy, utf8_lossy};
use crate::native::{
    RawArray, RawDataValue, RawProperty, CT_BOOLEAN, CT_BOOLEAN_ARRAY, CT_FLOAT64,
    CT_FLOAT64_ARRAY, CT_INT32, CT_INT32_ARRAY, CT_STRING, CT_STRING_ARRAY,
};
use crate::marshal::{
    all_or_errors, failures, lemma_take_next, spec_element_count, spec_elements, successes,
};
use vstd::prelude::*;

verus! {

/// Identifier for a device property.
#[derive(Debug, Clone, Copy, PartialEq, Eq, Hash)]
pub enum PropertyId {
    PropertyArray,
    MicEnabled,
    SurroundSoundEnabled,
    SidetoneEnabled,
    EqualizerPreset,
    PhysicalLayout,
    LogicalLayout,
    MacroKeyArray,
    BatteryLevel,
    ChannelLedCount,
    ChannelDeviceCount,
    ChannelDeviceLedCountArray,
    ChannelDeviceTypeArray,
}

impl PropertyId {
    /// The native code of this property.
    pub open spec fn spec_to_ffi(self) -> u32 {
        match self {
            PropertyId::PropertyArray => 1,
            PropertyId::MicEnabled => 2,
            PropertyId::SurroundSoundEnabled => 3,
            PropertyId::SidetoneEnabled => 4,
            PropertyId::EqualizerPreset => 5,
            PropertyId::PhysicalLayout => 6,
            PropertyId::LogicalLayout => 7,
            PropertyId::MacroKeyArray => 8,
            PropertyId::BatteryLevel => 9,
            PropertyId::ChannelLedCount => 10,
            PropertyId::ChannelDeviceCount => 11,
            PropertyId::ChannelDeviceLedCountArray => 12,
            PropertyId::ChannelDeviceTypeArray => 13,
        }
    }

    /// Convert to the native constant.
    pub fn to_ffi(self) -> (code: u32)
        ensures
            code == self.spec_to_ffi(),
            1 <= code <= 13,
    {
        match self {
            PropertyId::PropertyArray => 1,
            PropertyId::MicEnabled => 2,
            PropertyId::SurroundSoundEnabled => 3,
            PropertyId::SidetoneEnabled => 4,
            PropertyId::EqualizerPreset => 5,
            PropertyId::PhysicalLayout => 6,
            PropertyId::LogicalLayout => 7,
            PropertyId::MacroKeyArray => 8,
            PropertyId::BatteryLevel => 9,
            PropertyId::ChannelLedCount => 10,
            PropertyId::ChannelDeviceCount => 11,
            PropertyId::ChannelDeviceLedCountArray => 12,
            PropertyId::ChannelDeviceTypeArray => 13,
        }
    }
}

pub const PROPERTY_FLAG_CAN_READ: u32 = 1;
pub const PROPERTY_FLAG_CAN_WRITE: u32 = 2;
pub const PROPERTY_FLAG_INDEXED: u32 = 4;

/// Every bit that is the bit of a property flag.
pub const PROPERTY_FLAG_ALL: u32 = 7;

/// Flags describing what operations are allowed on a property.
#[derive(Debug, Clone, Copy, PartialEq, Eq)]
pub struct PropertyFlags {
    bits: u32,
}

impl View for PropertyFlags {
    type V = u32;

    closed spec fn view(&self) -> u32 {
        self.bits
    }
}

impl PropertyFlags {
    /// The flags among the given bits; bits that are no flag are dropped.
    pub fn from_bits_truncate(bits: u32) -> (flags: Self)
        ensures
            flags@ == bits & PROPERTY_FLAG_ALL,
    {
        PropertyFlags { bits: bits & PROPERTY_FLAG_ALL }
    }

    /// The bits of the flags.
    pub fn bits(&self) -> (bits: u32)
        ensures
            bits == self@,
    {
        self.bits
    }

    /// Whether the property can be read.
    pub fn can_read(&self) -> (set: bool)
        ensures
            set == (self@ & PROPERTY_FLAG_CAN_READ != 0),
    {
        self.bits & PROPERTY_FLAG_CAN_READ != 0
    }

    /// Whether the property can be written.
    pub fn can_write(&self) -> (set: bool)
        ensures
            set == (self@ & PROPERTY_FLAG_CAN_WRITE != 0),
    {
        self.bits & PROPERTY_FLAG_CAN_WRITE != 0
    }

    /// Whether the property is indexed.
    pub fn is_indexed(&self) -> (set: bool)
        ensures
            set == (self@ & PROPERTY_FLAG_INDEXED != 0),
    {
        self.bits & PROPERTY_FLAG_INDEXED != 0
    }
}

/// The data type of a property value.
#[derive(Debug, Clone, Copy, PartialEq, Eq)]
pub enum DataType {
    Boolean,
    Int32,
    Float64,
    String,
    BooleanArray,
    Int32Array,
    Float64Array,
    StringArray,
}

impl DataType {
    /// The data type that a native discriminant names, if it names one.
    pub open spec fn spec_from_ffi(raw: u32) -> Option<Self> {
        if raw == CT_BOOLEAN {
            Some(DataType::Boolean)
        } else if raw == CT_INT32 {
            Some(DataType::Int32)
        } else if raw == CT_FLOAT64 {
            Some(DataType::Float64)
        } else if raw == CT_STRING {
            Some(DataType::String)
        } else if raw == CT_BOOLEAN_ARRAY {
            Some(DataType::BooleanArray)
        } else if raw == CT_INT32_ARRAY {
            Some(DataType::Int32Array)
        } else if raw == CT_FLOAT64_ARRAY {
            Some(DataType::Float64Array)
        } else if raw == CT_STRING_ARRAY {
            Some(DataType::StringArray)
        } else {
            None
        }
    }

    /// Reads a native discriminant. This decides which arm of a value union
    /// may be read; `None` means that none may.
    pub fn from_ffi(raw: u32) -> (data_type: Option<Self>)
        ensures
            data_type == Self::spec_from_ffi(raw),
    {
        match raw {
            0 => Some(Self::Boolean),
            1 => Some(Self::Int32),
            2 => Some(Self::Float64),
            3 => Some(Self::String),
            16 => Some(Self::BooleanArray),
            17 => Some(Self::Int32Array),
            18 => Some(Self::Float64Array),
            19 => Some(Self::StringArray),
            _ => None,
        }
    }
}

/// Metadata about a device property (type and flags).
#[derive(Debug, Clone, Copy, PartialEq, Eq)]
pub struct PropertyInfo {
    pub data_type: DataType,
    pub flags: PropertyFlags,
}

impl PropertyInfo {
    /// Reads the metadata that the service wrote: an unknown data type is
    /// taken for `Int32`, and bits that are no flag are dropped.
    pub fn from_ffi(data_type: u32, flags: u32) -> (info: Self)
        ensures
            info.data_type == (match DataType::spec_from_ffi(data_type) {
                Some(t) => t,
                None => DataType::Int32,
            }),
            info.flags@ == flags & PROPERTY_FLAG_ALL,
    {
        let data_type = match DataType::from_ffi(data_type) {
            Some(t) => t,
            None => DataType::Int32,
        };
        PropertyInfo { data_type, flags: PropertyFlags::from_bits_truncate(flags) }
    }
}

/// An owned copy of a property value read from the SDK. A floating-point
/// value is the bit pattern of the IEEE-754 double.
#[derive(Debug, Clone, PartialEq, Eq)]
pub enum PropertyValue {
    Boolean(bool),
    Int32(i32),
    Float64(u64),
    String(std::string::String),
    BooleanArray(Vec<bool>),
    Int32Array(Vec<i32>),
    Float64Array(Vec<u64>),
    StringArray(Vec<std::string::String>),
}

/// The mathematical content of a [`PropertyValue`].
pub ghost enum PropertyValueView {
    Boolean(bool),
    Int32(i32),
    Float64(u64),
    String(Seq<char>),
    BooleanArray(Seq<bool>),
    Int32Array(Seq<i32>),
    Float64Array(Seq<u64>),
    StringArray(Seq<Seq<char>>),
}

impl DeepView for PropertyValue {
    type V = PropertyValueView;

    open spec fn deep_view(&self) -> PropertyValueView {
        match self {
            PropertyValue::Boolean(v) => PropertyValueView::Boolean(*v),
            PropertyValue::Int32(v) => PropertyValueView::Int32(*v),
            PropertyValue::Float64(v) => PropertyValueView::Float64(*v),
            PropertyValue::String(v) => PropertyValueView::String(v@),
            PropertyValue::BooleanArray(v) => PropertyValueView::BooleanArray(v@),
            PropertyValue::Int32Array(v) => PropertyValueView::Int32Array(v@),
            PropertyValue::Float64Array(v) => PropertyValueView::Float64Array(v@),
            PropertyValue::StringArray(v) => PropertyValueView::StringArray(v.deep_view()),
        }
    }
}

/// Why a native property has no value.
#[derive(Debug, Clone, PartialEq, Eq)]
pub enum PropertyValueFromFfiError {
    /// The discriminant names no data type; the value is the discriminant.
    /// The union was not read.
    UnknownDataType(u32),
    /// The discriminant names the given data type, whose payload lies behind
    /// a pointer, and that pointer is null although a payload was promised.
    NullPointer(DataType),
    /// Some strings of a string array are null pointers; the values are the
    /// places of all of them, ascending.
    NullStrings(Vec<usize>),
}

/// The mathematical content of a [`PropertyValueFromFfiError`].
pub ghost enum PropertyValueFromFfiErrorView {
    UnknownDataType(u32),
    NullPointer(DataType),
    NullStrings(Seq<usize>),
}

impl DeepView for PropertyValueFromFfiError {
    type V = PropertyValueFromFfiErrorView;

    open spec fn deep_view(&self) -> PropertyValueFromFfiErrorView {
        match self {
            PropertyValueFromFfiError::UnknownDataType(raw) => {
                PropertyValueFromFfiErrorView::UnknownDataType(*raw)
            },
            PropertyValueFromFfiError::NullPointer(data_type) => {
                PropertyValueFromFfiErrorView::NullPointer(*data_type)
            },
            PropertyValueFromFfiError::NullStrings(places) => {
                PropertyValueFromFfiErrorView::NullStrings(places@)
            },
        }
    }
}

/// The elements of an array arm of the given data type. A count of zero is
/// the empty array, whatever the pointer; with a positive count a null
/// pointer is an error, and otherwise the elements are the first `count` of
/// what the pointer refers to.
pub open spec fn spec_array_items<T>(array: RawArray<T>, data_type: DataType) -> Result<
    Seq<T>,
    PropertyValueFromFfiErrorView,
> {
    if array.count == 0 {
        Ok(Seq::empty())
    } else {
        match array.items {
            None => Err(PropertyValueFromFfiErrorView::NullPointer(data_type)),
            Some(items) => Ok(spec_elements(array.count as int, items@)),
        }
    }
}

/// How many elements an array arm with the given count has, if `readable`
/// of them can be read behind its pointer.
pub fn arm_element_count(count: u32, readable: usize) -> (n: usize)
    ensures
        n == spec_element_count(count as int, readable as int),
        n <= readable,
{
    if (count as usize) <= readable {
        count as usize
    } else {
        readable
    }
}

/// The text of a native string: the lossy decoding of its bytes; a null
/// pointer is an error.
pub open spec fn spec_text(string: Option<Vec<u8>>) -> Result<
    Seq<char>,
    PropertyValueFromFfiErrorView,
> {
    match string {
        None => Err(PropertyValueFromFfiErrorView::NullPointer(DataType::String)),
        Some(bytes) => Ok(utf8_lossy(bytes@)),
    }
}

/// The outcome of converting each string of a string array, in element
/// order: its text, or, for a null pointer, its place.
pub open spec fn spec_string_results(items: Seq<Option<Vec<u8>>>) -> Seq<
    Result<Seq<char>, usize>,
> {
    Seq::new(
        items.len(),
        |i: int|
            match items[i] {
                Some(bytes) => Ok(utf8_lossy(bytes@)),
                None => Err(i as usize),
            },
    )
}

/// What a string array arm converts to: judged as an array first, then
/// converted all-or-nothing.
pub open spec fn spec_strings(array: RawArray<Option<Vec<u8>>>) -> Result<
    Seq<Seq<char>>,
    PropertyValueFromFfiErrorView,
> {
    match spec_array_items(array, DataType::StringArray) {
        Err(e) => Err(e),
        Ok(items) => match all_or_errors(spec_string_results(items)) {
            Ok(texts) => Ok(texts),
            Err(places) => Err(PropertyValueFromFfiErrorView::NullStrings(places)),
        },
    }
}

/// The data type of a property whose payload was promised and is a null
/// pointer: a string that is null, or an array with a positive count whose
/// pointer is null.
pub open spec fn spec_null_payload(prop: RawProperty) -> Option<DataType> {
    match DataType::spec_from_ffi(prop.type_) {
        Some(DataType::String) if prop.value.string is None => Some(DataType::String),
        Some(DataType::BooleanArray) if prop.value.boolean_array.count > 0
            && prop.value.boolean_array.items is None => Some(DataType::BooleanArray),
        Some(DataType::Int32Array) if prop.value.int32_array.count > 0
            && prop.value.int32_array.items is None => Some(DataType::Int32Array),
        Some(DataType::Float64Array) if prop.value.float64_array.count > 0
            && prop.value.float64_array.items is None => Some(DataType::Float64Array),
        Some(DataType::StringArray) if prop.value.string_array.count > 0
            && prop.value.string_array.items is None => Some(DataType::StringArray),
        _ => None,
    }
}

/// The count of the array arm that the discriminant of a property names, if
/// it names one.
pub open spec fn spec_array_count(prop: RawProperty) -> Option<u32> {
    match DataType::spec_from_ffi(prop.type_) {
        Some(DataType::BooleanArray) => Some(prop.value.boolean_array.count),
        Some(DataType::Int32Array) => Some(prop.value.int32_array.count),
        Some(DataType::Float64Array) => Some(prop.value.float64_array.count),
        Some(DataType::StringArray) => Some(prop.value.string_array.count),
        _ => None,
    }
}

/// The empty array of an array data type.
pub open spec fn spec_empty_array(data_type: Option<DataType>) -> PropertyValueView {
    match data_type {
        Some(DataType::BooleanArray) => PropertyValueView::BooleanArray(Seq::empty()),
        Some(DataType::Int32Array) => PropertyValueView::Int32Array(Seq::empty()),
        Some(DataType::Float64Array) => PropertyValueView::Float64Array(Seq::empty()),
        _ => PropertyValueView::StringArray(Seq::empty()),
    }
}

impl PropertyValue {
    /// What a native property converts to. The discriminant decides which arm
    /// of the union counts; the other arms have no influence. A discriminant
    /// that names no data type is one error; a payload that was promised and
    /// is a null pointer is another.
    pub open spec fn spec_from_ffi(prop: RawProperty) -> Result<
        PropertyValueView,
        PropertyValueFromFfiErrorView,
    > {
        match DataType::spec_from_ffi(prop.type_) {
            None => Err(PropertyValueFromFfiErrorView::UnknownDataType(prop.type_)),
            Some(DataType::Boolean) => Ok(PropertyValueView::Boolean(prop.value.boolean)),
            Some(DataType::Int32) => Ok(PropertyValueView::Int32(prop.value.int32)),
            Some(DataType::Float64) => Ok(PropertyValueView::Float64(prop.value.float64)),
            Some(DataType::String) => match spec_text(prop.value.string) {
                Ok(text) => Ok(PropertyValueView::String(text)),
                Err(e) => Err(e),
            },
            Some(DataType::BooleanArray) => match spec_array_items(
                prop.value.boolean_array,
                DataType::BooleanArray,
            ) {
                Ok(items) => Ok(PropertyValueView::BooleanArray(items)),
                Err(e) => Err(e),
            },
            Some(DataType::Int32Array) => match spec_array_items(
                prop.value.int32_array,
                DataType::Int32Array,
            ) {
                Ok(items) => Ok(PropertyValueView::Int32Array(items)),
                Err(e) => Err(e),
            },
            Some(DataType::Float64Array) => match spec_array_items(
                prop.value.float64_array,
                DataType::Float64Array,
            ) {
                Ok(items) => Ok(PropertyValueView::Float64Array(items)),
                Err(e) => Err(e),
            },
            Some(DataType::StringArray) => match spec_strings(prop.value.string_array) {
                Ok(texts) => Ok(PropertyValueView::StringArray(texts)),
                Err(e) => Err(e),
            },
        }
    }

    /// Extracts an owned value from a native property: the discriminant is
    /// read first, and only the arm of the union that it names is looked at.
    /// Everything is copied, so that the native property can be released as
    /// soon as this returns, and has to be, exactly once, whatever the
    /// result.
    pub fn from_ffi(prop: &RawProperty) -> (res: Result<Self, PropertyValueFromFfiError>)
        ensures
            match res {
                Ok(v) => Self::spec_from_ffi(*prop) == Ok::<
                    PropertyValueView,
                    PropertyValueFromFfiErrorView,
                >(v.deep_view()),
                Err(e) => Self::spec_from_ffi(*prop) == Err::<
                    PropertyValueView,
                    PropertyValueFromFfiErrorView,
                >(e.deep_view()),
            },
            DataType::spec_from_ffi(prop.type_) is None ==> res == Err::<
                Self,
                PropertyValueFromFfiError,
            >(PropertyValueFromFfiError::UnknownDataType(prop.type_)),
            spec_null_payload(*prop) matches Some(data_type) ==> res == Err::<
                Self,
                PropertyValueFromFfiError,
            >(PropertyValueFromFfiError::NullPointer(data_type)),
            spec_array_count(*prop) == Some(0u32) ==> (res matches Ok(v) && v.deep_view()
                == spec_empty_array(DataType::spec_from_ffi(prop.type_))),
    {
        match DataType::from_ffi(prop.type_) {
            None => Err(PropertyValueFromFfiError::UnknownDataType(prop.type_)),
            Some(DataType::Boolean) => Ok(PropertyValue::Boolean(prop.value.boolean)),
            Some(DataType::Int32) => Ok(PropertyValue::Int32(prop.value.int32)),
            Some(DataType::Float64) => Ok(PropertyValue::Float64(prop.value.float64)),
            Some(DataType::String) => match text_of(&prop.value.string) {
                Ok(text) => Ok(PropertyValue::String(text)),
                Err(e) => Err(e),
            },
            Some(DataType::BooleanArray) => match array_items(
                &prop.value.boolean_array,
                DataType::BooleanArray,
            ) {
                Ok(items) => Ok(PropertyValue::BooleanArray(items)),
                Err(e) => Err(e),
            },
            Some(DataType::Int32Array) => match array_items(
                &prop.value.int32_array,
                DataType::Int32Array,
            ) {
                Ok(items) => Ok(PropertyValue::Int32Array(items)),
                Err(e) => Err(e),
            },
            Some(DataType::Float64Array) => match array_items(
                &prop.value.float64_array,
                DataType::Float64Array,
            ) {
                Ok(items) => Ok(PropertyValue::Float64Array(items)),
                Err(e) => Err(e),
            },
            Some(DataType::StringArray) => match strings_of(&prop.value.string_array) {
                Ok(texts) => Ok(PropertyValue::StringArray(texts)),
                Err(e) => Err(e),
            },
        }
    }
}

/// The text of a native string, decoded leniently; a null pointer is an
/// error.
pub fn text_of(string: &Option<Vec<u8>>) -> (res: Result<
    std::string::String,
    PropertyValueFromFfiError,
>)
    ensures
        match res {
            Ok(text) => spec_text(*string) == Ok::<Seq<char>, PropertyValueFromFfiErrorView>(
                text@,
            ),
            Err(e) => spec_text(*string) == Err::<Seq<char>, PropertyValueFromFfiErrorView>(
                e.deep_view(),
            ),
        },
        string is None <==> res is Err,
{
    match string {
        None => Err(PropertyValueFromFfiError::NullPointer(DataType::String)),
        Some(bytes) => Ok(decode_utf8_lossy(bytes.as_slice())),
    }
}

/// Copies the elements of an array arm of the given data type.
pub fn array_items<T: Copy>(array: &RawArray<T>, data_type: DataType) -> (res: Result<
    Vec<T>,
    PropertyValueFromFfiError,
>)
    ensures
        match res {
            Ok(items) => spec_array_items(*array, data_type) == Ok::<
                Seq<T>,
                PropertyValueFromFfiErrorView,
            >(items@),
            Err(e) => spec_array_items(*array, data_type) == Err::<
                Seq<T>,
                PropertyValueFromFfiErrorView,
            >(e.deep_view()),
        },
        array.count == 0 ==> (res matches Ok(items) && items@.len() == 0),
        array.count > 0 && array.items is None ==> res == Err::<
            Vec<T>,
            PropertyValueFromFfiError,
        >(PropertyValueFromFfiError::NullPointer(data_type)),
{
    let mut out: Vec<T> = Vec::new();
    if array.count == 0 {
        return Ok(out);
    }
    match &array.items {
        None => Err(PropertyValueFromFfiError::NullPointer(data_type)),
        Some(items) => {
            let n = arm_element_count(array.count, items.len());
            let mut i: usize = 0;
            while i < n
                invariant
                    i <= n,
                    n <= items.len(),
                    out@ == items@.take(i as int),
                decreases n - i,
            {
                out.push(items[i]);
                i += 1;
                proof {
                    assert(out@ =~= items@.take(i as int));
                }
            }
            Ok(out)
        },
    }
}

/// Converts a string array arm: every string is decoded leniently, and the
/// places of all null pointers among them are reported together.
pub fn strings_of(array: &RawArray<Option<Vec<u8>>>) -> (res: Result<
    Vec<std::string::String>,
    PropertyValueFromFfiError,
>)
    ensures
        match res {
            Ok(texts) => spec_strings(*array) == Ok::<
                Seq<Seq<char>>,
                PropertyValueFromFfiErrorView,
            >(texts.deep_view()),
            Err(e) => spec_strings(*array) == Err::<Seq<Seq<char>>, PropertyValueFromFfiErrorView>(
                e.deep_view(),
            ),
        },
        array.count == 0 ==> (res matches Ok(texts) && texts@.len() == 0),
        array.count > 0 && array.items is None ==> res == Err::<
            Vec<std::string::String>,
            PropertyValueFromFfiError,
        >(PropertyValueFromFfiError::NullPointer(DataType::StringArray)),
{
    let mut strings: Vec<std::string::String> = Vec::new();
    if array.count == 0 {
        proof {
            assert(strings.deep_view() =~= Seq::<Seq<char>>::empty());
            assert(spec_string_results(Seq::<Option<Vec<u8>>>::empty()) =~= Seq::empty());
        }
        return Ok(strings);
    }
    let items = match &array.items {
        None => {
            return Err(PropertyValueFromFfiError::NullPointer(DataType::StringArray));
        },
        Some(items) => items,
    };
    let n = arm_element_count(array.count, items.len());
    let ghost results = spec_string_results(items@.take(n as int));
    let mut places: Vec<usize> = Vec::new();
    let mut i: usize = 0;
    proof {
        assert(strings.deep_view() =~= successes(results.take(0)));
    }
    while i < n
        invariant
            i <= n,
            n <= items.len(),
            results == spec_string_results(items@.take(n as int)),
            strings.deep_view() == successes(results.take(i as int)),
            places@ == failures(results.take(i as int)),
        decreases n - i,
    {
        proof {
            lemma_take_next(results, i as int);
        }
        let ghost before = strings.deep_view();
        match &items[i] {
            Some(bytes) => {
                let text = decode_utf8_lossy(bytes.as_slice());
                strings.push(text);
                proof {
                    assert(strings.deep_view() =~= before.push(text@));
                }
            },
            None => {
                places.push(i);
            },
        }
        i += 1;
    }
    proof {
        assert(results.take(i as int) =~= results);
    }
    if places.len() == 0 {
        Ok(strings)
    } else {
        Err(PropertyValueFromFfiError::NullStrings(places))
    }
}

/// A value union with nothing in it: every arm zero or null.
pub fn zeroed_value() -> (value: RawDataValue)
    ensures
        value.boolean == false,
        value.int32 == 0,
        value.float64 == 0,
        value.string is None,
        value.boolean_array.items is None && value.boolean_array.count == 0,
        value.int32_array.items is None && value.int32_array.count == 0,
        value.float64_array.items is None && value.float64_array.count == 0,
        value.string_array.items is None && value.string_array.count == 0,
{
    RawDataValue {
        boolean: false,
        int32: 0,
        float64: 0,
        string: None,
        boolean_array: RawArray { items: None, count: 0 },
        int32_array: RawArray { items: None, count: 0 },
        float64_array: RawArray { items: None, count: 0 },
        string_array: RawArray { items: None, count: 0 },
    }
}

/// Create a native property for writing a boolean value.
pub fn make_bool_property(value: bool) -> (prop: RawProperty)
    ensures
        prop.type_ == CT_BOOLEAN,
        prop.value.boolean == value,
        PropertyValue::spec_from_ffi(prop) == Ok::<
            PropertyValueView,
            PropertyValueFromFfiErrorView,
        >(PropertyValueView::Boolean(value)),
{
    let mut data = zeroed_value();
    data.boolean = value;
    RawProperty { type_: CT_BOOLEAN, value: data }
}

/// Create a native property for writing an i32 value.
pub fn make_int32_property(value: i32) -> (prop: RawProperty)
    ensures
        prop.type_ == CT_INT32,
        prop.value.int32 == value,
        PropertyValue::spec_from_ffi(prop) == Ok::<
            PropertyValueView,
            PropertyValueFromFfiErrorView,
        >(PropertyValueView::Int32(value)),
{
    let mut data = zeroed_value();
    data.int32 = value;
    RawProperty { type_: CT_INT32, value: data }
}

/// Create a native property for writing a floating-point value, given as
/// the bit pattern of the IEEE-754 double.
pub fn make_float64_property(value: u64) -> (prop: RawProperty)
    ensures
        prop.type_ == CT_FLOAT64,
        prop.value.float64 == value,
        PropertyValue::spec_from_ffi(prop) == Ok::<
            PropertyValueView,
            PropertyValueFromFfiErrorView,
        >(PropertyValueView::Float64(value)),
{
    let mut data = zeroed_value();
    data.float64 = value;
    RawProperty { type_: CT_FLOAT64, value: data }
}

} // verus!
