//! The work item, its pixel buffer, and the structured record in which an
//! item is stored and sent.

use vstd::prelude::*;
use serde_json::Value;
use crate::json::{
    array_value, elements_of, json_array, json_member, json_u64, member, number_value, object_of,
    u64_of,
};
use crate::ident::{
    format_id, fresh_id, id_text, is_random_id, lemma_id_text_parses, lemma_random_id_not_nil,
    parse_id, scan_id,
};

verus! {

/// What a pixel buffer is: its dimensions and its bytes, three per pixel,
/// row by row.
pub struct PixelView {
    pub width: u64,
    pub height: u64,
    pub data: Seq<u8>,
}

/// What the record of a pixel buffer is: each field may be absent.
pub struct ImageRecordView {
    pub width: Option<u64>,
    pub height: Option<u64>,
    pub data: Option<Seq<u8>>,
}

/// What a work item is.
pub struct ItemView {
    pub id: u128,
    pub image: PixelView,
    pub result: Option<Result<(), Seq<char>>>,
    pub debug: bool,
}

/// What the record of a work item is.
pub struct ItemRecordView {
    pub id: Seq<char>,
    pub image: ImageRecordView,
    pub result: Option<Result<(), Seq<char>>>,
    pub debug: bool,
}

/// A field of an image record.
#[derive(Clone, Copy, Debug, PartialEq, Eq, Structural)]
pub enum ImageField {
    Width,
    Height,
    Data,
}

/// Why a record was rejected.
#[derive(Clone, Copy, Debug, PartialEq, Eq, Structural)]
pub enum ItemError {
    /// The dimensions and the number of bytes disagree.
    MalformedImage,
    /// A field of the image record is absent.
    MissingField(ImageField),
    /// The identifier is not 32 hexadecimal digits.
    InvalidIdentifier,
}

/// The bytes that an image of the given dimensions holds: three per pixel.
pub open spec fn byte_count(width: u64, height: u64) -> nat {
    (width as nat) * (height as nat) * 3
}

/// The dimensions and the bytes agree.
pub open spec fn pixels_wf(v: PixelView) -> bool {
    v.data.len() == byte_count(v.width, v.height)
}

/// The record of a pixel buffer: all three fields present.
pub open spec fn image_to_record(v: PixelView) -> ImageRecordView {
    ImageRecordView { width: Some(v.width), height: Some(v.height), data: Some(v.data) }
}

/// The pixel buffer that a record describes. A record that lacks a field is
/// rejected with the first such field, in the order width, height, data; one
/// whose dimensions and bytes disagree is malformed.
pub open spec fn image_from_record(r: ImageRecordView) -> Result<PixelView, ItemError> {
    if r.width is None {
        Err(ItemError::MissingField(ImageField::Width))
    } else if r.height is None {
        Err(ItemError::MissingField(ImageField::Height))
    } else if r.data is None {
        Err(ItemError::MissingField(ImageField::Data))
    } else if r.data.unwrap().len() != byte_count(r.width.unwrap(), r.height.unwrap()) {
        Err(ItemError::MalformedImage)
    } else {
        Ok(PixelView { width: r.width.unwrap(), height: r.height.unwrap(), data: r.data.unwrap() })
    }
}

/// The record of a work item: the identifier as text, the image as its
/// record, outcome and debug flag as they are.
pub open spec fn item_to_record(v: ItemView) -> ItemRecordView {
    ItemRecordView {
        id: id_text(v.id),
        image: image_to_record(v.image),
        result: v.result,
        debug: v.debug,
    }
}

/// The work item that a record describes. The identifier is read first, then
/// the image.
pub open spec fn item_from_record(r: ItemRecordView) -> Result<ItemView, ItemError> {
    match parse_id(r.id) {
        None => Err(ItemError::InvalidIdentifier),
        Some(id) => match image_from_record(r.image) {
            Err(e) => Err(e),
            Ok(image) => Ok(ItemView { id, image, result: r.result, debug: r.debug }),
        },
    }
}

/// What an outcome is: success, or the text of a failure.
pub open spec fn outcome_view(r: Option<Result<(), String>>) -> Option<Result<(), Seq<char>>> {
    match r {
        None => None,
        Some(Ok(_)) => Some(Ok(())),
        Some(Err(message)) => Some(Err(message@)),
    }
}

/// A rectangle of pixels, three bytes each, stored row by row.
#[derive(Debug, PartialEq, Eq)]
pub struct PixelBuffer {
    width: u64,
    height: u64,
    data: Vec<u8>,
}

impl View for PixelBuffer {
    type V = PixelView;

    closed spec fn view(&self) -> PixelView {
        PixelView { width: self.width, height: self.height, data: self.data@ }
    }
}

impl Clone for PixelBuffer {
    fn clone(&self) -> (copy: PixelBuffer)
        ensures
            copy@ == self@,
    {
        proof {
            use_type_invariant(self);
        }
        PixelBuffer { width: self.width, height: self.height, data: copy_bytes(&self.data) }
    }
}

impl PixelBuffer {
    /// Every pixel buffer holds exactly the bytes that its dimensions ask for.
    #[verifier::type_invariant]
    closed spec fn holds_its_bytes(self) -> bool {
        self.data@.len() == byte_count(self.width, self.height)
    }

    /// The buffer holds exactly the bytes that its dimensions ask for.
    pub open spec fn wf(&self) -> bool {
        pixels_wf(self@)
    }

    /// A black image of the given dimensions.
    pub fn new(width: u64, height: u64) -> (image: PixelBuffer)
        requires
            byte_count(width, height) <= usize::MAX,
        ensures
            image.wf(),
            image@.width == width,
            image@.height == height,
            forall|i: int| 0 <= i < image@.data.len() ==> image@.data[i] == 0,
    {
        let total: u128 = byte_total(width, height);
        let mut data: Vec<u8> = Vec::new();
        let mut n: u128 = 0;
        while n < total
            invariant
                n <= total,
                total <= usize::MAX,
                data@.len() == n,
                forall|i: int| 0 <= i < data@.len() ==> data@[i] == 0,
            decreases total - n,
        {
            data.push(0u8);
            n = n + 1;
        }
        PixelBuffer { width, height, data }
    }

    /// Takes the bytes as an image of the given dimensions, if there are
    /// exactly as many as the dimensions ask for.
    pub fn from_raw(width: u64, height: u64, data: Vec<u8>) -> (r: Option<PixelBuffer>)
        ensures
            r is Some <==> data@.len() == byte_count(width, height),
            r matches Some(image) ==> image@ == (PixelView { width, height, data: data@ }),
    {
        if holds_exactly(width, height, data.len()) {
            Some(PixelBuffer { width, height, data })
        } else {
            None
        }
    }

    /// The number of pixels in a row.
    pub fn width(&self) -> (w: u64)
        ensures
            w == self@.width,
    {
        self.width
    }

    /// The number of rows.
    pub fn height(&self) -> (h: u64)
        ensures
            h == self@.height,
    {
        self.height
    }

    /// The bytes, row by row: three for each pixel.
    pub fn as_raw(&self) -> (bytes: &Vec<u8>)
        ensures
            bytes@ == self@.data,
            bytes@.len() == byte_count(self@.width, self@.height),
    {
        proof {
            use_type_invariant(self);
        }
        &self.data
    }

    /// Gives up the image for its bytes.
    pub fn into_raw(self) -> (bytes: Vec<u8>)
        ensures
            bytes@ == self@.data,
            bytes@.len() == byte_count(self@.width, self@.height),
    {
        proof {
            use_type_invariant(&self);
        }
        self.data
    }
}

/// The number of pixels of an image of the given dimensions, computed
/// without overflow.
fn pixel_total(width: u64, height: u64) -> (n: u128)
    ensures
        n == (width as nat) * (height as nat),
{
    let w: u128 = width as u128;
    let h: u128 = height as u128;
    assert(w * h <= 0xffff_ffff_ffff_ffff * 0xffff_ffff_ffff_ffff) by (nonlinear_arith)
        requires
            w <= 0xffff_ffff_ffff_ffff,
            h <= 0xffff_ffff_ffff_ffff,
    ;
    w * h
}

/// The number of bytes of an image of the given dimensions, where a vector
/// can hold as many.
fn byte_total(width: u64, height: u64) -> (n: u128)
    requires
        byte_count(width, height) <= usize::MAX,
    ensures
        n == byte_count(width, height),
{
    pixel_total(width, height) * 3
}

/// Whether `len` bytes are exactly what an image of the given dimensions
/// holds.
fn holds_exactly(width: u64, height: u64, len: usize) -> (r: bool)
    ensures
        r == (len == byte_count(width, height)),
{
    let pixels: u128 = pixel_total(width, height);
    len % 3 == 0 && pixels == (len / 3) as u128
}

/// A copy of the bytes.
fn copy_bytes(bytes: &Vec<u8>) -> (r: Vec<u8>)
    ensures
        r@ == bytes@,
{
    let mut r: Vec<u8> = Vec::new();
    let mut i: usize = 0;
    while i < bytes.len()
        invariant
            i <= bytes.len(),
            r@ == bytes@.subrange(0, i as int),
        decreases bytes.len() - i,
    {
        r.push(bytes[i]);
        i = i + 1;
        assert(r@ =~= bytes@.subrange(0, i as int));
    }
    assert(bytes@.subrange(0, bytes.len() as int) =~= bytes@);
    r
}

/// A copy of an outcome.
fn copy_outcome(outcome: &Option<Result<(), String>>) -> (r: Option<Result<(), String>>)
    ensures
        outcome_view(r) == outcome_view(*outcome),
{
    match outcome {
        None => None,
        Some(Ok(_)) => Some(Ok(())),
        Some(Err(message)) => Some(Err(message.clone())),
    }
}

/// The record of a pixel buffer, as it is stored and sent.
#[derive(Clone, Debug, PartialEq, Eq)]
pub struct ImageRecord {
    pub width: Option<u64>,
    pub height: Option<u64>,
    pub data: Option<Vec<u8>>,
}

impl View for ImageRecord {
    type V = ImageRecordView;

    open spec fn view(&self) -> ImageRecordView {
        ImageRecordView {
            width: self.width,
            height: self.height,
            data: match self.data {
                Some(bytes) => Some(bytes@),
                None => None,
            },
        }
    }
}

/// The record of a work item, as it is stored and sent.
#[derive(Clone, Debug, PartialEq, Eq)]
pub struct ItemRecord {
    pub id: String,
    pub image: ImageRecord,
    pub result: Option<Result<(), String>>,
    pub debug: bool,
}

impl View for ItemRecord {
    type V = ItemRecordView;

    open spec fn view(&self) -> ItemRecordView {
        ItemRecordView {
            id: self.id@,
            image: self.image@,
            result: outcome_view(self.result),
            debug: self.debug,
        }
    }
}

/// Writes a pixel buffer as its record: width, height and the bytes.
pub fn image_serialize(image: &PixelBuffer) -> (record: ImageRecord)
    ensures
        record@ == image_to_record(image@),
        image_from_record(record@) == Ok::<PixelView, ItemError>(image@),
{
    proof {
        use_type_invariant(image);
    }
    ImageRecord {
        width: Some(image.width),
        height: Some(image.height),
        data: Some(copy_bytes(&image.data)),
    }
}

/// The number under a key of a structured value; `None` where the value has
/// no such member or the member is no whole number.
pub open spec fn dimension_at(value: Value, key: Seq<char>) -> Option<u64> {
    match json_member(value, key) {
        Some(m) => json_u64(m),
        None => None,
    }
}

/// Every element is a whole number.
pub open spec fn all_numbers(elements: Seq<Value>) -> bool {
    forall|i: int| 0 <= i < elements.len() ==> (#[trigger] json_u64(elements[i])) is Some
}

/// The bytes that an array of numbers gives, each number cut to eight bits;
/// `None` where an element is no whole number.
pub open spec fn bytes_of_elements(elements: Seq<Value>) -> Option<Seq<u8>> {
    if all_numbers(elements) {
        Some(Seq::new(elements.len(), |i: int| json_u64(elements[i]).unwrap() as u8))
    } else {
        None
    }
}

/// The bytes under a key of a structured value; `None` where the value has
/// no such member, or the member is no array of whole numbers.
pub open spec fn bytes_at(value: Value, key: Seq<char>) -> Option<Seq<u8>> {
    match json_member(value, key) {
        Some(m) => match json_array(m) {
            Some(elements) => bytes_of_elements(elements),
            None => None,
        },
        None => None,
    }
}

/// The image record that a structured value holds: `width` and `height` as
/// numbers, `data` as an array of numbers. What is not there, or is of
/// another kind, is absent from the record.
pub open spec fn image_record_of(value: Value) -> ImageRecordView {
    ImageRecordView {
        width: dimension_at(value, "width"@),
        height: dimension_at(value, "height"@),
        data: bytes_at(value, "data"@),
    }
}

/// Writes a pixel buffer as a structured value: an object with `width`,
/// `height` and, under `data`, the array of the bytes. The value reads back
/// as the record of the image.
pub fn image_to_value(image: &PixelBuffer) -> (value: Value)
    ensures
        image_record_of(value) == image_to_record(image@),
        image_from_record(image_record_of(value)) == Ok::<PixelView, ItemError>(image@),
        forall|key: Seq<char>|
            key != "width"@ && key != "height"@ && key != "data"@ ==> json_member(value, key)
                is None,
{
    proof {
        use_type_invariant(image);
    }
    let mut elements: Vec<Value> = Vec::new();
    let mut i: usize = 0;
    while i < image.data.len()
        invariant
            i <= image.data.len(),
            elements@.len() == i,
            forall|j: int|
                0 <= j < i ==> (#[trigger] json_u64(elements@[j])) == Some(image.data@[j] as u64),
        decreases image.data.len() - i,
    {
        elements.push(number_value(image.data[i] as u64));
        i = i + 1;
    }
    assert(bytes_of_elements(elements@) == Some(image.data@)) by {
        assert(bytes_of_elements(elements@).unwrap() =~= image.data@);
    }
    let mut members: Vec<(String, Value)> = Vec::new();
    members.push(("width".to_owned(), number_value(image.width)));
    members.push(("height".to_owned(), number_value(image.height)));
    members.push(("data".to_owned(), array_value(elements)));
    proof {
        reveal_strlit("width");
        reveal_strlit("height");
        reveal_strlit("data");
        assert(members@[0].0@ == "width"@);
        assert(members@[1].0@ == "height"@);
        assert(members@[2].0@ == "data"@);
    }
    object_of(members)
}

/// Reads a dimension of an image from a structured value.
fn read_dimension(value: &Value, key: &str) -> (r: Option<u64>)
    ensures
        r == dimension_at(*value, key@),
{
    match member(value, key) {
        Some(m) => u64_of(m),
        None => None,
    }
}

/// Reads the bytes of an image from the elements of an array.
fn read_elements(elements: &Vec<Value>) -> (r: Option<Vec<u8>>)
    ensures
        r is Some <==> bytes_of_elements(elements@) is Some,
        r matches Some(bytes) ==> bytes_of_elements(elements@) == Some(bytes@),
{
    let mut bytes: Vec<u8> = Vec::new();
    let mut i: usize = 0;
    while i < elements.len()
        invariant
            i <= elements.len(),
            bytes@.len() == i,
            forall|j: int| 0 <= j < i ==> (#[trigger] json_u64(elements@[j])) is Some,
            forall|j: int| 0 <= j < i ==> bytes@[j] == json_u64(elements@[j]).unwrap() as u8,
        decreases elements.len() - i,
    {
        match u64_of(&elements[i]) {
            Some(n) => {
                bytes.push(#[verifier::truncate] (n as u8));
            },
            None => {
                return None;
            },
        }
        i = i + 1;
    }
    assert(bytes@ =~= bytes_of_elements(elements@).unwrap());
    Some(bytes)
}

/// Reads the bytes of an image from a structured value.
fn read_bytes(value: &Value, key: &str) -> (r: Option<Vec<u8>>)
    ensures
        r is Some <==> bytes_at(*value, key@) is Some,
        r matches Some(bytes) ==> bytes_at(*value, key@) == Some(bytes@),
{
    match member(value, key) {
        Some(m) => match elements_of(m) {
            Some(elements) => read_elements(elements),
            None => None,
        },
        None => None,
    }
}

/// Reads an image record from a structured value.
pub fn image_record_from_value(value: &Value) -> (record: ImageRecord)
    ensures
        record@ == image_record_of(*value),
{
    ImageRecord {
        width: read_dimension(value, "width"),
        height: read_dimension(value, "height"),
        data: read_bytes(value, "data"),
    }
}

/// Reads a pixel buffer from a structured value: from the record that the
/// value holds.
pub fn image_from_value(value: &Value) -> (r: Result<PixelBuffer, ItemError>)
    ensures
        image_outcome_view(r) == image_from_record(image_record_of(*value)),
{
    let record = image_record_from_value(value);
    image_deserialize(&record)
}

/// What `image_deserialize` returns, by views.
pub open spec fn image_outcome_view(r: Result<PixelBuffer, ItemError>) -> Result<
    PixelView,
    ItemError,
> {
    match r {
        Ok(image) => Ok(image@),
        Err(e) => Err(e),
    }
}

/// Reads a pixel buffer from its record. A record that lacks a field, or
/// whose bytes are not three for each pixel, is rejected.
pub fn image_deserialize(record: &ImageRecord) -> (r: Result<PixelBuffer, ItemError>)
    ensures
        image_outcome_view(r) == image_from_record(record@),
        r matches Ok(image) ==> image.wf(),
{
    let width = match record.width {
        Some(w) => w,
        None => {
            return Err(ItemError::MissingField(ImageField::Width));
        },
    };
    let height = match record.height {
        Some(h) => h,
        None => {
            return Err(ItemError::MissingField(ImageField::Height));
        },
    };
    let data = match &record.data {
        Some(bytes) => copy_bytes(bytes),
        None => {
            return Err(ItemError::MissingField(ImageField::Data));
        },
    };
    match PixelBuffer::from_raw(width, height, data) {
        Some(image) => Ok(image),
        None => Err(ItemError::MalformedImage),
    }
}

/// The unit of work: an image on its way through the pipeline.
#[derive(Clone, Debug)]
pub struct InferItem {
    pub id: u128,
    pub image: PixelBuffer,
    pub result: Option<Result<(), String>>,
    pub debug: bool,
}

impl View for InferItem {
    type V = ItemView;

    open spec fn view(&self) -> ItemView {
        ItemView {
            id: self.id,
            image: self.image@,
            result: outcome_view(self.result),
            debug: self.debug,
        }
    }
}

/// What `InferItem::deserialize` returns, by views.
pub open spec fn item_outcome_view(r: Result<InferItem, ItemError>) -> Result<ItemView, ItemError> {
    match r {
        Ok(item) => Ok(item@),
        Err(e) => Err(e),
    }
}

impl InferItem {
    /// The image holds exactly the bytes that its dimensions ask for.
    pub open spec fn wf(&self) -> bool {
        self.image.wf()
    }

    /// A new, unprocessed item. Without an identifier it draws one at random.
    pub fn new(id: Option<u128>, image: PixelBuffer, debug: bool) -> (item: InferItem)
        ensures
            id matches Some(given) ==> item.id == given,
            id is None ==> is_random_id(item.id) && item.id != 0,
            item.image == image,
            item.result is None,
            item.debug == debug,
            item.wf(),
    {
        proof {
            use_type_invariant(&image);
        }
        let id = match id {
            Some(given) => given,
            None => {
                let drawn = fresh_id();
                proof {
                    lemma_random_id_not_nil(drawn);
                }
                drawn
            },
        };
        InferItem { id, image, result: None, debug }
    }

    /// Writes the item as its record. The record reads back as this item.
    pub fn serialize(&self) -> (record: ItemRecord)
        ensures
            record@ == item_to_record(self@),
            item_from_record(record@) == Ok::<ItemView, ItemError>(self@),
    {
        proof {
            use_type_invariant(&self.image);
            lemma_record_round_trip(self@);
        }
        ItemRecord {
            id: format_id(self.id),
            image: image_serialize(&self.image),
            result: copy_outcome(&self.result),
            debug: self.debug,
        }
    }

    /// Reads an item from its record. The identifier must be 32 hexadecimal
    /// digits, and the image record complete and consistent.
    pub fn deserialize(record: &ItemRecord) -> (r: Result<InferItem, ItemError>)
        ensures
            item_outcome_view(r) == item_from_record(record@),
            r matches Ok(item) ==> item.wf(),
    {
        let id = match scan_id(record.id.as_str()) {
            Some(id) => id,
            None => {
                return Err(ItemError::InvalidIdentifier);
            },
        };
        match image_deserialize(&record.image) {
            Ok(image) => Ok(
                InferItem { id, image, result: copy_outcome(&record.result), debug: record.debug },
            ),
            Err(e) => Err(e),
        }
    }

    /// Whether two items are the same: identifier, image, outcome and debug
    /// flag.
    pub fn same(&self, other: &InferItem) -> (r: bool)
        ensures
            r == (self@ == other@),
    {
        self.id == other.id && self.debug == other.debug && self.image.width == other.image.width
            && self.image.height == other.image.height && same_bytes(
            &self.image.data,
            &other.image.data,
        ) && same_outcome(&self.result, &other.result)
    }
}

impl PartialEq for InferItem {
    fn eq(&self, other: &InferItem) -> (r: bool) {
        self.same(other)
    }
}

impl Eq for InferItem {

}

impl vstd::std_specs::cmp::PartialEqSpecImpl for InferItem {
    open spec fn obeys_eq_spec() -> bool {
        true
    }

    open spec fn eq_spec(&self, other: &InferItem) -> bool {
        self@ == other@
    }
}

/// Whether two byte vectors hold the same bytes.
fn same_bytes(a: &Vec<u8>, b: &Vec<u8>) -> (r: bool)
    ensures
        r == (a@ == b@),
{
    if a.len() != b.len() {
        return false;
    }
    let mut i: usize = 0;
    while i < a.len()
        invariant
            a.len() == b.len(),
            i <= a.len(),
            forall|j: int| 0 <= j < i ==> a@[j] == b@[j],
        decreases a.len() - i,
    {
        if a[i] != b[i] {
            return false;
        }
        i = i + 1;
    }
    assert(a@ =~= b@);
    true
}

/// Whether two outcomes are the same.
fn same_outcome(a: &Option<Result<(), String>>, b: &Option<Result<(), String>>) -> (r: bool)
    ensures
        r == (outcome_view(*a) == outcome_view(*b)),
{
    match (a, b) {
        (None, None) => true,
        (Some(Ok(_)), Some(Ok(_))) => true,
        (Some(Err(x)), Some(Err(y))) => *x == *y,
        _ => false,
    }
}

/// Reading what was written gives the item back: for every item whose image
/// is well formed, the record of the item describes that item.
pub proof fn lemma_record_round_trip(item: ItemView)
    requires
        pixels_wf(item.image),
    ensures
        item_from_record(item_to_record(item)) == Ok::<ItemView, ItemError>(item),
{
    lemma_id_text_parses(item.id);
}

/// An image record whose bytes are not three for each pixel is malformed,
/// whatever the dimensions and the bytes are.
pub proof fn lemma_mismatch_is_malformed(width: u64, height: u64, data: Seq<u8>)
    requires
        data.len() != byte_count(width, height),
    ensures
        image_from_record(
            ImageRecordView { width: Some(width), height: Some(height), data: Some(data) },
        ) == Err::<PixelView, ItemError>(ItemError::MalformedImage),
{
}

/// A record is read as an item exactly when its identifier is 32 hexadecimal
/// digits, its image record is complete, and the bytes are three per pixel.
pub proof fn lemma_accepted_records(r: ItemRecordView)
    ensures
        item_from_record(r) is Ok <==> {
            &&& parse_id(r.id) is Some
            &&& r.image.width is Some
            &&& r.image.height is Some
            &&& r.image.data is Some
            &&& r.image.data.unwrap().len() == byte_count(
                r.image.width.unwrap(),
                r.image.height.unwrap(),
            )
        },
{
}

} // verus!
