//! The options that accompany a creation call, and the
//! key/value entries of the dictionary that the foreign runtime reads.

use vstd::prelude::*;

verus! {

/// The recognised keys of the creation dictionary, one for each kind of attribute.
#[derive(Debug, Clone, Copy, PartialEq, Eq, Structural)]
pub enum AttributeKey {
    MemoryAllocator,
    PixelFormatType,
    Width,
    Height,
    ExtendedPixelsLeft,
    ExtendedPixelsTop,
    ExtendedPixelsRight,
    ExtendedPixelsBottom,
    BytesPerRowAlignment,
    CGBitmapContextCompatibility,
    CGImageCompatibility,
    OpenGLCompatibility,
    PlaneAlignment,
    IOSurfaceProperties,
    OpenGLESCompatibility,
    MetalCompatibility,
    IOSurfaceCoreAnimationCompatibility,
    IOSurfaceOpenGLFBOCompatibility,
    IOSurfaceOpenGLESFBOCompatibility,
    IOSurfaceOpenGLTextureCompatibility,
    IOSurfaceOpenGLESTextureCompatibility,
    OpenGLTextureCacheCompatibility,
    OpenGLESTextureCacheCompatibility,
}

/// One pixel format, or a list of acceptable ones.
#[derive(Debug)]
pub enum PixelFormatValue {
    Single(usize),
    Many(Vec<usize>),
}

/// One creation option. The two options that refer to an object of the foreign
/// runtime (an allocator, a dictionary of surface properties) carry its address.
#[derive(Debug)]
pub enum PixelBufferAttribute {
    MemoryAllocator(usize),
    PixelFormat(PixelFormatValue),
    Width(usize),
    Height(usize),
    ExtendedPixelsLeft(usize),
    ExtendedPixelsTop(usize),
    ExtendedPixelsRight(usize),
    ExtendedPixelsBottom(usize),
    BytesPerRowAlignment(usize),
    CGBitmapContextCompatibility(bool),
    CGImageCompatibility(bool),
    OpenGLCompatibility(bool),
    PlaneAlignment(usize),
    IOSurfaceProperties(usize),
    OpenGLESCompatibility(bool),
    MetalCompatibility(bool),
    IOSurfaceCoreAnimationCompatibility(bool),
    IOSurfaceOpenGLFBOCompatibility(bool),
    IOSurfaceOpenGLESFBOCompatibility(bool),
    IOSurfaceOpenGLTextureCompatibility(bool),
    IOSurfaceOpenGLESTextureCompatibility(bool),
    OpenGLTextureCacheCompatibility(bool),
    OpenGLESTextureCacheCompatibility(bool),
}

/// What an attribute carries, as a mathematical value.
pub ghost enum Payload {
    Count(usize),
    Counts(Seq<usize>),
    Flag(bool),
    Object(usize),
}

/// The model of an attribute: the key it is filed under and what it carries.
pub ghost struct AttributeModel {
    pub key: AttributeKey,
    pub payload: Payload,
}

/// A value of the creation dictionary.
#[derive(Debug)]
pub enum AttributeValue {
    /// A signed 64-bit number.
    Number(i64),
    Boolean(bool),
    /// An array of signed 64-bit numbers.
    NumberArray(Vec<i64>),
    /// An object of the foreign runtime, by its address.
    Object(usize),
}

/// The model of a dictionary value.
pub ghost enum ValueModel {
    Number(i64),
    Boolean(bool),
    NumberArray(Seq<i64>),
    Object(usize),
}

/// One entry of the creation dictionary.
#[derive(Debug)]
pub struct AttributeEntry {
    pub key: AttributeKey,
    pub value: AttributeValue,
}

/// The model of a dictionary entry.
pub ghost struct EntryModel {
    pub key: AttributeKey,
    pub value: ValueModel,
}

/// The dictionary value that stands for a payload. Counts are stored as signed
/// 64-bit numbers, keeping their low 64 bits; flags and objects pass unchanged.
pub open spec fn value_of(payload: Payload) -> ValueModel {
    match payload {
        Payload::Count(n) => ValueModel::Number(n as i64),
        Payload::Counts(ns) => ValueModel::NumberArray(ns.map_values(|n: usize| n as i64)),
        Payload::Flag(b) => ValueModel::Boolean(b),
        Payload::Object(address) => ValueModel::Object(address),
    }
}

/// The dictionary entry that an attribute is stored as.
pub open spec fn entry_of(attribute: AttributeModel) -> EntryModel {
    EntryModel { key: attribute.key, value: value_of(attribute.payload) }
}

/// The entries that a list of attributes is stored as: one for each
/// attribute, in the order in which they were added.
pub open spec fn entries_of(attributes: Seq<AttributeModel>) -> Seq<EntryModel> {
    attributes.map_values(|attribute: AttributeModel| entry_of(attribute))
}

/// The models of a run of attributes.
pub open spec fn attribute_models(attributes: Seq<PixelBufferAttribute>) -> Seq<AttributeModel> {
    attributes.map_values(|attribute: PixelBufferAttribute| attribute@)
}

/// The models of a run of dictionary entries.
pub open spec fn entry_models(entries: Seq<AttributeEntry>) -> Seq<EntryModel> {
    entries.map_values(|entry: AttributeEntry| entry@)
}

impl View for PixelFormatValue {
    type V = Payload;

    open spec fn view(&self) -> Payload {
        match self {
            PixelFormatValue::Single(n) => Payload::Count(*n),
            PixelFormatValue::Many(ns) => Payload::Counts(ns@),
        }
    }
}

impl Clone for PixelFormatValue {
    fn clone(&self) -> (copy: Self)
        ensures
            copy@ == self@,
    {
        match self {
            PixelFormatValue::Single(n) => PixelFormatValue::Single(*n),
            PixelFormatValue::Many(ns) => {
                let copied = ns.clone();
                assert(copied@ =~= ns@);
                PixelFormatValue::Many(copied)
            },
        }
    }
}

impl View for PixelBufferAttribute {
    type V = AttributeModel;

    open spec fn view(&self) -> AttributeModel {
        match self {
            PixelBufferAttribute::MemoryAllocator(address) => AttributeModel {
                key: AttributeKey::MemoryAllocator,
                payload: Payload::Object(*address),
            },
            PixelBufferAttribute::PixelFormat(format) => AttributeModel {
                key: AttributeKey::PixelFormatType,
                payload: format@,
            },
            PixelBufferAttribute::Width(n) => AttributeModel {
                key: AttributeKey::Width,
                payload: Payload::Count(*n),
            },
            PixelBufferAttribute::Height(n) => AttributeModel {
                key: AttributeKey::Height,
                payload: Payload::Count(*n),
            },
            PixelBufferAttribute::ExtendedPixelsLeft(n) => AttributeModel {
                key: AttributeKey::ExtendedPixelsLeft,
                payload: Payload::Count(*n),
            },
            PixelBufferAttribute::ExtendedPixelsTop(n) => AttributeModel {
                key: AttributeKey::ExtendedPixelsTop,
                payload: Payload::Count(*n),
            },
            PixelBufferAttribute::ExtendedPixelsRight(n) => AttributeModel {
                key: AttributeKey::ExtendedPixelsRight,
                payload: Payload::Count(*n),
            },
            PixelBufferAttribute::ExtendedPixelsBottom(n) => AttributeModel {
                key: AttributeKey::ExtendedPixelsBottom,
                payload: Payload::Count(*n),
            },
            PixelBufferAttribute::BytesPerRowAlignment(n) => AttributeModel {
                key: AttributeKey::BytesPerRowAlignment,
                payload: Payload::Count(*n),
            },
            PixelBufferAttribute::CGBitmapContextCompatibility(b) => AttributeModel {
                key: AttributeKey::CGBitmapContextCompatibility,
                payload: Payload::Flag(*b),
            },
            PixelBufferAttribute::CGImageCompatibility(b) => AttributeModel {
                key: AttributeKey::CGImageCompatibility,
                payload: Payload::Flag(*b),
            },
            PixelBufferAttribute::OpenGLCompatibility(b) => AttributeModel {
                key: AttributeKey::OpenGLCompatibility,
                payload: Payload::Flag(*b),
            },
            PixelBufferAttribute::PlaneAlignment(n) => AttributeModel {
                key: AttributeKey::PlaneAlignment,
                payload: Payload::Count(*n),
            },
            PixelBufferAttribute::IOSurfaceProperties(address) => AttributeModel {
                key: AttributeKey::IOSurfaceProperties,
                payload: Payload::Object(*address),
            },
            PixelBufferAttribute::OpenGLESCompatibility(b) => AttributeModel {
                key: AttributeKey::OpenGLESCompatibility,
                payload: Payload::Flag(*b),
            },
            PixelBufferAttribute::MetalCompatibility(b) => AttributeModel {
                key: AttributeKey::MetalCompatibility,
                payload: Payload::Flag(*b),
            },
            PixelBufferAttribute::IOSurfaceCoreAnimationCompatibility(b) => AttributeModel {
                key: AttributeKey::IOSurfaceCoreAnimationCompatibility,
                payload: Payload::Flag(*b),
            },
            PixelBufferAttribute::IOSurfaceOpenGLFBOCompatibility(b) => AttributeModel {
                key: AttributeKey::IOSurfaceOpenGLFBOCompatibility,
                payload: Payload::Flag(*b),
            },
            PixelBufferAttribute::IOSurfaceOpenGLESFBOCompatibility(b) => AttributeModel {
                key: AttributeKey::IOSurfaceOpenGLESFBOCompatibility,
                payload: Payload::Flag(*b),
            },
            PixelBufferAttribute::IOSurfaceOpenGLTextureCompatibility(b) => AttributeModel {
                key: AttributeKey::IOSurfaceOpenGLTextureCompatibility,
                payload: Payload::Flag(*b),
            },
            PixelBufferAttribute::IOSurfaceOpenGLESTextureCompatibility(b) => AttributeModel {
                key: AttributeKey::IOSurfaceOpenGLESTextureCompatibility,
                payload: Payload::Flag(*b),
            },
            PixelBufferAttribute::OpenGLTextureCacheCompatibility(b) => AttributeModel {
                key: AttributeKey::OpenGLTextureCacheCompatibility,
                payload: Payload::Flag(*b),
            },
            PixelBufferAttribute::OpenGLESTextureCacheCompatibility(b) => AttributeModel {
                key: AttributeKey::OpenGLESTextureCacheCompatibility,
                payload: Payload::Flag(*b),
            },
        }
    }
}

impl View for AttributeValue {
    type V = ValueModel;

    open spec fn view(&self) -> ValueModel {
        match self {
            AttributeValue::Number(n) => ValueModel::Number(*n),
            AttributeValue::Boolean(b) => ValueModel::Boolean(*b),
            AttributeValue::NumberArray(ns) => ValueModel::NumberArray(ns@),
            AttributeValue::Object(address) => ValueModel::Object(*address),
        }
    }
}

impl View for AttributeEntry {
    type V = EntryModel;

    open spec fn view(&self) -> EntryModel {
        EntryModel { key: self.key, value: self.value@ }
    }
}

impl PixelFormatValue {
    /// The dictionary value for this format: a number for a single format, an
    /// array of numbers for a list.
    pub fn value(&self) -> (value: AttributeValue)
        ensures
            value@ == value_of(self@),
    {
        match self {
            PixelFormatValue::Single(n) => AttributeValue::Number(*n as i64),
            PixelFormatValue::Many(ns) => {
                let mut numbers: Vec<i64> = Vec::new();
                let mut i: usize = 0;
                while i < ns.len()
                    invariant
                        i <= ns.len(),
                        numbers@.len() == i,
                        forall|j: int| 0 <= j < i ==> #[trigger] numbers@[j] == ns@[j] as i64,
                    decreases ns.len() - i,
                {
                    numbers.push(ns[i] as i64);
                    i += 1;
                }
                assert(numbers@ =~= ns@.map_values(|n: usize| n as i64));
                AttributeValue::NumberArray(numbers)
            },
        }
    }
}

impl Clone for PixelBufferAttribute {
    fn clone(&self) -> (copy: Self)
        ensures
            copy@ == self@,
    {
        match self {
            PixelBufferAttribute::MemoryAllocator(address) => PixelBufferAttribute::MemoryAllocator(*address),
            PixelBufferAttribute::PixelFormat(format) => PixelBufferAttribute::PixelFormat(format.clone()),
            PixelBufferAttribute::Width(n) => PixelBufferAttribute::Width(*n),
            PixelBufferAttribute::Height(n) => PixelBufferAttribute::Height(*n),
            PixelBufferAttribute::ExtendedPixelsLeft(n) => PixelBufferAttribute::ExtendedPixelsLeft(*n),
            PixelBufferAttribute::ExtendedPixelsTop(n) => PixelBufferAttribute::ExtendedPixelsTop(*n),
            PixelBufferAttribute::ExtendedPixelsRight(n) => PixelBufferAttribute::ExtendedPixelsRight(*n),
            PixelBufferAttribute::ExtendedPixelsBottom(n) => PixelBufferAttribute::ExtendedPixelsBottom(*n),
            PixelBufferAttribute::BytesPerRowAlignment(n) => PixelBufferAttribute::BytesPerRowAlignment(*n),
            PixelBufferAttribute::CGBitmapContextCompatibility(b) => PixelBufferAttribute::CGBitmapContextCompatibility(*b),
            PixelBufferAttribute::CGImageCompatibility(b) => PixelBufferAttribute::CGImageCompatibility(*b),
            PixelBufferAttribute::OpenGLCompatibility(b) => PixelBufferAttribute::OpenGLCompatibility(*b),
            PixelBufferAttribute::PlaneAlignment(n) => PixelBufferAttribute::PlaneAlignment(*n),
            PixelBufferAttribute::IOSurfaceProperties(address) => PixelBufferAttribute::IOSurfaceProperties(*address),
            PixelBufferAttribute::OpenGLESCompatibility(b) => PixelBufferAttribute::OpenGLESCompatibility(*b),
            PixelBufferAttribute::MetalCompatibility(b) => PixelBufferAttribute::MetalCompatibility(*b),
            PixelBufferAttribute::IOSurfaceCoreAnimationCompatibility(b) => PixelBufferAttribute::IOSurfaceCoreAnimationCompatibility(*b),
            PixelBufferAttribute::IOSurfaceOpenGLFBOCompatibility(b) => PixelBufferAttribute::IOSurfaceOpenGLFBOCompatibility(*b),
            PixelBufferAttribute::IOSurfaceOpenGLESFBOCompatibility(b) => PixelBufferAttribute::IOSurfaceOpenGLESFBOCompatibility(*b),
            PixelBufferAttribute::IOSurfaceOpenGLTextureCompatibility(b) => PixelBufferAttribute::IOSurfaceOpenGLTextureCompatibility(*b),
            PixelBufferAttribute::IOSurfaceOpenGLESTextureCompatibility(b) => PixelBufferAttribute::IOSurfaceOpenGLESTextureCompatibility(*b),
            PixelBufferAttribute::OpenGLTextureCacheCompatibility(b) => PixelBufferAttribute::OpenGLTextureCacheCompatibility(*b),
            PixelBufferAttribute::OpenGLESTextureCacheCompatibility(b) => PixelBufferAttribute::OpenGLESTextureCacheCompatibility(*b),
        }
    }
}

impl PixelBufferAttribute {
    /// The key that this attribute is filed under in the creation dictionary.
    pub fn key(&self) -> (key: AttributeKey)
        ensures
            key == self@.key,
    {
        match self {
            PixelBufferAttribute::MemoryAllocator(_) => AttributeKey::MemoryAllocator,
            PixelBufferAttribute::PixelFormat(_) => AttributeKey::PixelFormatType,
            PixelBufferAttribute::Width(_) => AttributeKey::Width,
            PixelBufferAttribute::Height(_) => AttributeKey::Height,
            PixelBufferAttribute::ExtendedPixelsLeft(_) => AttributeKey::ExtendedPixelsLeft,
            PixelBufferAttribute::ExtendedPixelsTop(_) => AttributeKey::ExtendedPixelsTop,
            PixelBufferAttribute::ExtendedPixelsRight(_) => AttributeKey::ExtendedPixelsRight,
            PixelBufferAttribute::ExtendedPixelsBottom(_) => AttributeKey::ExtendedPixelsBottom,
            PixelBufferAttribute::BytesPerRowAlignment(_) => AttributeKey::BytesPerRowAlignment,
            PixelBufferAttribute::CGBitmapContextCompatibility(_) => AttributeKey::CGBitmapContextCompatibility,
            PixelBufferAttribute::CGImageCompatibility(_) => AttributeKey::CGImageCompatibility,
            PixelBufferAttribute::OpenGLCompatibility(_) => AttributeKey::OpenGLCompatibility,
            PixelBufferAttribute::PlaneAlignment(_) => AttributeKey::PlaneAlignment,
            PixelBufferAttribute::IOSurfaceProperties(_) => AttributeKey::IOSurfaceProperties,
            PixelBufferAttribute::OpenGLESCompatibility(_) => AttributeKey::OpenGLESCompatibility,
            PixelBufferAttribute::MetalCompatibility(_) => AttributeKey::MetalCompatibility,
            PixelBufferAttribute::IOSurfaceCoreAnimationCompatibility(_) => AttributeKey::IOSurfaceCoreAnimationCompatibility,
            PixelBufferAttribute::IOSurfaceOpenGLFBOCompatibility(_) => AttributeKey::IOSurfaceOpenGLFBOCompatibility,
            PixelBufferAttribute::IOSurfaceOpenGLESFBOCompatibility(_) => AttributeKey::IOSurfaceOpenGLESFBOCompatibility,
            PixelBufferAttribute::IOSurfaceOpenGLTextureCompatibility(_) => AttributeKey::IOSurfaceOpenGLTextureCompatibility,
            PixelBufferAttribute::IOSurfaceOpenGLESTextureCompatibility(_) => AttributeKey::IOSurfaceOpenGLESTextureCompatibility,
            PixelBufferAttribute::OpenGLTextureCacheCompatibility(_) => AttributeKey::OpenGLTextureCacheCompatibility,
            PixelBufferAttribute::OpenGLESTextureCacheCompatibility(_) => AttributeKey::OpenGLESTextureCacheCompatibility,
        }
    }

    /// The value that this attribute is stored as in the creation dictionary.
    pub fn value(&self) -> (value: AttributeValue)
        ensures
            value@ == value_of(self@.payload),
    {
        match self {
            PixelBufferAttribute::MemoryAllocator(address) => AttributeValue::Object(*address),
            PixelBufferAttribute::PixelFormat(format) => format.value(),
            PixelBufferAttribute::Width(n) => AttributeValue::Number(*n as i64),
            PixelBufferAttribute::Height(n) => AttributeValue::Number(*n as i64),
            PixelBufferAttribute::ExtendedPixelsLeft(n) => AttributeValue::Number(*n as i64),
            PixelBufferAttribute::ExtendedPixelsTop(n) => AttributeValue::Number(*n as i64),
            PixelBufferAttribute::ExtendedPixelsRight(n) => AttributeValue::Number(*n as i64),
            PixelBufferAttribute::ExtendedPixelsBottom(n) => AttributeValue::Number(*n as i64),
            PixelBufferAttribute::BytesPerRowAlignment(n) => AttributeValue::Number(*n as i64),
            PixelBufferAttribute::CGBitmapContextCompatibility(b) => AttributeValue::Boolean(*b),
            PixelBufferAttribute::CGImageCompatibility(b) => AttributeValue::Boolean(*b),
            PixelBufferAttribute::OpenGLCompatibility(b) => AttributeValue::Boolean(*b),
            PixelBufferAttribute::PlaneAlignment(n) => AttributeValue::Number(*n as i64),
            PixelBufferAttribute::IOSurfaceProperties(address) => AttributeValue::Object(*address),
            PixelBufferAttribute::OpenGLESCompatibility(b) => AttributeValue::Boolean(*b),
            PixelBufferAttribute::MetalCompatibility(b) => AttributeValue::Boolean(*b),
            PixelBufferAttribute::IOSurfaceCoreAnimationCompatibility(b) => AttributeValue::Boolean(*b),
            PixelBufferAttribute::IOSurfaceOpenGLFBOCompatibility(b) => AttributeValue::Boolean(*b),
            PixelBufferAttribute::IOSurfaceOpenGLESFBOCompatibility(b) => AttributeValue::Boolean(*b),
            PixelBufferAttribute::IOSurfaceOpenGLTextureCompatibility(b) => AttributeValue::Boolean(*b),
            PixelBufferAttribute::IOSurfaceOpenGLESTextureCompatibility(b) => AttributeValue::Boolean(*b),
            PixelBufferAttribute::OpenGLTextureCacheCompatibility(b) => AttributeValue::Boolean(*b),
            PixelBufferAttribute::OpenGLESTextureCacheCompatibility(b) => AttributeValue::Boolean(*b),
        }
    }

    /// The dictionary entry that this attribute is stored as.
    pub fn entry(&self) -> (entry: AttributeEntry)
        ensures
            entry@ == entry_of(self@),
    {
        AttributeEntry { key: self.key(), value: self.value() }
    }
}

/// The creation options of one call, in the order in which they were given.
#[derive(Debug)]
pub struct PixelBufferAttributes(Vec<PixelBufferAttribute>);

impl View for PixelBufferAttributes {
    type V = Seq<AttributeModel>;

    closed spec fn view(&self) -> Seq<AttributeModel> {
        attribute_models(self.0@)
    }
}

impl Clone for PixelBufferAttributes {
    fn clone(&self) -> (copy: Self)
        ensures
            copy@ == self@,
    {
        PixelBufferAttributes::new(self.0.as_slice())
    }
}

impl Default for PixelBufferAttributes {
    /// No options at all.
    fn default() -> (attributes: Self)
        ensures
            attributes@ == Seq::<AttributeModel>::empty(),
    {
        let attributes = PixelBufferAttributes(Vec::new());
        assert(attributes@ =~= Seq::<AttributeModel>::empty());
        attributes
    }
}

impl PixelBufferAttributes {
    /// The options of `attributes`, in their order.
    pub fn new(attributes: &[PixelBufferAttribute]) -> (created: Self)
        ensures
            created@ == attribute_models(attributes@),
    {
        let mut list: Vec<PixelBufferAttribute> = Vec::new();
        let mut i: usize = 0;
        while i < attributes.len()
            invariant
                i <= attributes.len(),
                list@.len() == i,
                forall|j: int| 0 <= j < i ==> (#[trigger] list@[j])@ == attributes@[j]@,
            decreases attributes.len() - i,
        {
            list.push(attributes[i].clone());
            i += 1;
        }
        assert(attribute_models(list@) =~= attribute_models(attributes@));
        PixelBufferAttributes(list)
    }

    /// Appends one option after those already given.
    pub fn add(&mut self, attribute: PixelBufferAttribute)
        ensures
            final(self)@ == old(self)@.push(attribute@),
    {
        self.0.push(attribute);
        assert(self@ =~= old(self)@.push(attribute@));
    }

    /// How many options were given.
    pub fn len(&self) -> (count: usize)
        ensures
            count == self@.len(),
    {
        self.0.len()
    }

    /// The entries of the creation dictionary: one for each option, in the order
    /// in which the options were given.
    pub fn entries(&self) -> (entries: Vec<AttributeEntry>)
        ensures
            entry_models(entries@) == entries_of(self@),
    {
        let mut entries: Vec<AttributeEntry> = Vec::new();
        let mut i: usize = 0;
        while i < self.0.len()
            invariant
                i <= self.0.len(),
                entries@.len() == i,
                forall|j: int| 0 <= j < i ==> (#[trigger] entries@[j])@ == entry_of(self.0@[j]@),
            decreases self.0.len() - i,
        {
            entries.push(self.0[i].entry());
            i += 1;
        }
        assert(entry_models(entries@) =~= entries_of(self@));
        entries
    }
}

} // verus!
