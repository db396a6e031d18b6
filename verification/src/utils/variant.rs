use vstd::prelude::*;

verus! {

/// The runtime tag of a dynamic value: which concrete shape was wrapped.
///
/// A tuple `(A, B, C)` is tagged `Pair(A, Pair(B, Pair(C, End)))`.
#[derive(Debug, PartialEq, Eq)]
pub enum Shape {
    Empty,
    Bool,
    U8,
    I8,
    U16,
    I16,
    U32,
    I32,
    U64,
    I64,
    Text,
    List(Box<Shape>),
    Optional(Box<Shape>),
    Dict(Box<Shape>),
    Pair(Box<Shape>, Box<Shape>),
    End,
}

impl Shape {
    /// Decides whether two tags name the same shape.
    pub fn same(&self, other: &Shape) -> (equal: bool)
        ensures
            equal == (*self == *other),
        decreases *self,
    {
        match (self, other) {
            (Shape::Empty, Shape::Empty) => true,
            (Shape::Bool, Shape::Bool) => true,
            (Shape::U8, Shape::U8) => true,
            (Shape::I8, Shape::I8) => true,
            (Shape::U16, Shape::U16) => true,
            (Shape::I16, Shape::I16) => true,
            (Shape::U32, Shape::U32) => true,
            (Shape::I32, Shape::I32) => true,
            (Shape::U64, Shape::U64) => true,
            (Shape::I64, Shape::I64) => true,
            (Shape::Text, Shape::Text) => true,
            (Shape::End, Shape::End) => true,
            (Shape::List(a), Shape::List(b)) => a.same(b),
            (Shape::Optional(a), Shape::Optional(b)) => a.same(b),
            (Shape::Dict(a), Shape::Dict(b)) => a.same(b),
            (Shape::Pair(a, c), Shape::Pair(b, d)) => a.same(b) && c.same(d),
            _ => false,
        }
    }

    /// An independent copy of the tag.
    pub fn duplicate(&self) -> (copy: Shape)
        ensures
            copy == *self,
        decreases *self,
    {
        match self {
            Shape::Empty => Shape::Empty,
            Shape::Bool => Shape::Bool,
            Shape::U8 => Shape::U8,
            Shape::I8 => Shape::I8,
            Shape::U16 => Shape::U16,
            Shape::I16 => Shape::I16,
            Shape::U32 => Shape::U32,
            Shape::I32 => Shape::I32,
            Shape::U64 => Shape::U64,
            Shape::I64 => Shape::I64,
            Shape::Text => Shape::Text,
            Shape::End => Shape::End,
            Shape::List(a) => Shape::List(Box::new(a.duplicate())),
            Shape::Optional(a) => Shape::Optional(Box::new(a.duplicate())),
            Shape::Dict(a) => Shape::Dict(Box::new(a.duplicate())),
            Shape::Pair(a, b) => Shape::Pair(Box::new(a.duplicate()), Box::new(b.duplicate())),
        }
    }
}


/// What a dynamic value holds, as a mathematical value.
pub enum Content {
    Empty,
    Bool(bool),
    U8(u8),
    I8(i8),
    U16(u16),
    I16(i16),
    U32(u32),
    I32(i32),
    U64(u64),
    I64(i64),
    Text(Seq<char>),
    List(Seq<Content>),
    Optional(Option<Box<Content>>),
    Dict(Map<Seq<char>, Content>),
    Pair(Box<Content>, Box<Content>),
    End,
}

/// Whether a value is one that the shape `shape` admits.
pub open spec fn conforms(value: Content, shape: Shape) -> bool
    decreases value,
{
    match (value, shape) {
        (Content::Empty, Shape::Empty) => true,
        (Content::Bool(_), Shape::Bool) => true,
        (Content::U8(_), Shape::U8) => true,
        (Content::I8(_), Shape::I8) => true,
        (Content::U16(_), Shape::U16) => true,
        (Content::I16(_), Shape::I16) => true,
        (Content::U32(_), Shape::U32) => true,
        (Content::I32(_), Shape::I32) => true,
        (Content::U64(_), Shape::U64) => true,
        (Content::I64(_), Shape::I64) => true,
        (Content::Text(_), Shape::Text) => true,
        (Content::End, Shape::End) => true,
        (Content::List(items), Shape::List(inner)) => forall|i: int|
            0 <= i < items.len() ==> conforms(#[trigger] items[i], *inner),
        (Content::Optional(None), Shape::Optional(_)) => true,
        (Content::Optional(Some(item)), Shape::Optional(inner)) => conforms(*item, *inner),
        (Content::Dict(entries), Shape::Dict(inner)) => forall|key: Seq<char>|
            entries.contains_key(key) ==> conforms(#[trigger] entries[key], *inner),
        (Content::Pair(head, rest), Shape::Pair(first, others)) => conforms(*head, *first)
            && conforms(*rest, *others),
        _ => false,
    }
}

/// The stored, type-erased contents of a dynamic value.
pub enum Payload {
    Empty,
    Bool(bool),
    U8(u8),
    I8(i8),
    U16(u16),
    I16(i16),
    U32(u32),
    I32(i32),
    U64(u64),
    I64(i64),
    Text(String),
    List(Vec<Payload>),
    Optional(Option<Box<Payload>>),
    /// Keyed entries. Where a key stands twice, the later entry counts.
    Dict(Vec<(String, Payload)>),
    Pair(Box<Payload>, Box<Payload>),
    End,
}

/// The keys of keyed entries, as texts.
pub open spec fn key_texts<T>(entries: Seq<(String, T)>) -> Seq<Seq<char>> {
    Seq::new(entries.len(), |i: int| entries[i].0@)
}

/// Whether `text` is among the keys.
pub open spec fn has_key(keys: Seq<Seq<char>>, text: Seq<char>) -> bool {
    exists|i: int| 0 <= i < keys.len() && #[trigger] keys[i] == text
}

/// Whether `place` is where `text` stands last among the keys.
pub open spec fn is_last_place(keys: Seq<Seq<char>>, text: Seq<char>, place: int) -> bool {
    &&& 0 <= place < keys.len()
    &&& keys[place] == text
    &&& forall|j: int| place < j < keys.len() ==> #[trigger] keys[j] != text
}

/// Where `text` stands last among the keys.
pub open spec fn last_place(keys: Seq<Seq<char>>, text: Seq<char>) -> int {
    choose|place: int| is_last_place(keys, text, place)
}

/// A key that is among the keys stands somewhere last, and nowhere else
/// last.
pub proof fn lemma_last_place(keys: Seq<Seq<char>>, text: Seq<char>)
    requires
        has_key(keys, text),
    ensures
        is_last_place(keys, text, last_place(keys, text)),
        forall|place: int| is_last_place(keys, text, place) ==> place == last_place(keys, text),
    decreases keys.len(),
{
    if keys.last() == text {
        assert(is_last_place(keys, text, keys.len() - 1));
    } else {
        let shorter = keys.drop_last();
        let i = choose|i: int| 0 <= i < keys.len() && #[trigger] keys[i] == text;
        assert(shorter[i] == text);
        lemma_last_place(shorter, text);
        let place = last_place(shorter, text);
        assert(keys[place] == shorter[place]);
        assert forall|j: int| place < j < keys.len() implies #[trigger] keys[j] != text by {
            if j < shorter.len() {
                assert(keys[j] == shorter[j]);
            }
        }
        assert(is_last_place(keys, text, place));
    }
    let found = last_place(keys, text);
    assert forall|place: int| is_last_place(keys, text, place) implies place == found by {
        if place < found {
            assert(keys[found] != text);
        } else if found < place {
            assert(keys[place] != text);
        }
    }
}

impl View for Payload {
    type V = Content;

    open spec fn view(&self) -> Content {
        self.model()
    }
}

impl Payload {
    /// The mathematical value that these contents stand for.
    pub open spec fn model(&self) -> Content
        decreases self,
    {
        match self {
            Payload::Empty => Content::Empty,
            Payload::Bool(b) => Content::Bool(*b),
            Payload::U8(n) => Content::U8(*n),
            Payload::I8(n) => Content::I8(*n),
            Payload::U16(n) => Content::U16(*n),
            Payload::I16(n) => Content::I16(*n),
            Payload::U32(n) => Content::U32(*n),
            Payload::I32(n) => Content::I32(*n),
            Payload::U64(n) => Content::U64(*n),
            Payload::I64(n) => Content::I64(*n),
            Payload::Text(s) => Content::Text(s@),
            Payload::List(items) => Content::List(
                Seq::new(
                    items@.len(),
                    |i: int|
                        if 0 <= i < items@.len() {
                            items@[i].model()
                        } else {
                            Content::Empty
                        },
                ),
            ),
            Payload::Optional(None) => Content::Optional(None),
            Payload::Optional(Some(item)) => Content::Optional(Some(Box::new(item.model()))),
            Payload::Dict(entries) => Content::Dict(
                Map::new(
                    |text: Seq<char>| has_key(key_texts(entries@), text),
                    |text: Seq<char>|
                        {
                            let place = last_place(key_texts(entries@), text);
                            if 0 <= place < entries@.len() {
                                entries@[place].1.model()
                            } else {
                                Content::Empty
                            }
                        },
                ),
            ),
            Payload::Pair(head, rest) => Content::Pair(
                Box::new(head.model()),
                Box::new(rest.model()),
            ),
            Payload::End => Content::End,
        }
    }

    /// The first item and the remainder of a non-empty chain of items.
    pub fn split(&self) -> (parts: (&Payload, &Payload))
        requires
            self@ is Pair,
        ensures
            parts.0@ == *self@->Pair_0,
            parts.1@ == *self@->Pair_1,
    {
        match self {
            Payload::Pair(head, rest) => (head, rest),
            _ => vstd::pervasive::unreached(),
        }
    }

    /// A deep, independent copy with the same contents.
    pub fn duplicate(&self) -> (copy: Payload)
        ensures
            copy@ == self@,
        decreases self,
    {
        match self {
            Payload::Empty => Payload::Empty,
            Payload::Bool(b) => Payload::Bool(*b),
            Payload::U8(n) => Payload::U8(*n),
            Payload::I8(n) => Payload::I8(*n),
            Payload::U16(n) => Payload::U16(*n),
            Payload::I16(n) => Payload::I16(*n),
            Payload::U32(n) => Payload::U32(*n),
            Payload::I32(n) => Payload::I32(*n),
            Payload::U64(n) => Payload::U64(*n),
            Payload::I64(n) => Payload::I64(*n),
            Payload::Text(s) => Payload::Text(s.clone()),
            Payload::List(items) => {
                let mut copies: Vec<Payload> = Vec::new();
                let mut i: usize = 0;
                while i < items.len()
                    invariant
                        *self == Payload::List(*items),
                        decreases_to!(*self => *items),
                        i <= items.len(),
                        copies.len() == i,
                        forall|j: int| 0 <= j < i ==> copies@[j].model() == items@[j].model(),
                    decreases items.len() - i,
                {
                    proof {
                        assert(decreases_to!(*items => items[i as int]));
                    }
                    let copy = items[i].duplicate();
                    copies.push(copy);
                    i += 1;
                }
                let copy = Payload::List(copies);
                assert(copy.model()->List_0 =~= self.model()->List_0);
                copy
            },
            Payload::Optional(None) => Payload::Optional(None),
            Payload::Optional(Some(item)) => Payload::Optional(Some(Box::new(item.duplicate()))),
            Payload::Dict(entries) => {
                let mut copies: Vec<(String, Payload)> = Vec::new();
                let mut i: usize = 0;
                while i < entries.len()
                    invariant
                        *self == Payload::Dict(*entries),
                        decreases_to!(*self => *entries),
                        i <= entries.len(),
                        copies.len() == i,
                        forall|j: int|
                            0 <= j < i ==> copies@[j].0@ == entries@[j].0@ && copies@[j].1.model()
                                == entries@[j].1.model(),
                    decreases entries.len() - i,
                {
                    proof {
                        assert(decreases_to!(*entries => entries[i as int]));
                        assert(decreases_to!(entries[i as int] => entries[i as int].1));
                    }
                    let copy = entries[i].1.duplicate();
                    copies.push((entries[i].0.clone(), copy));
                    i += 1;
                }
                let copy = Payload::Dict(copies);
                proof {
                    assert(key_texts(copies@) =~= key_texts(entries@));
                    assert(copy.model()->Dict_0 =~= self.model()->Dict_0);
                }
                copy
            },
            Payload::Pair(head, rest) => Payload::Pair(
                Box::new(head.duplicate()),
                Box::new(rest.duplicate()),
            ),
            Payload::End => Payload::End,
        }
    }
}


/// Why a dynamic value could not be read: it holds another shape.
#[derive(Debug)]
pub struct ConversionError(pub &'static str);

/// The contents of a dynamic value that carries nothing.
#[derive(Clone, Copy, Debug)]
pub struct Empty {}

/// A concrete type that a dynamic value can carry.
pub trait TVariant: Sized {
    /// The tag that identifies the implementing type at run time.
    spec fn tag() -> Shape;

    /// What a value of the implementing type holds.
    spec fn content(&self) -> Content;

    /// Whether two values of the type hold the same.
    spec fn alike(&self, other: &Self) -> bool;

    /// Every value of the type is one that the type's tag admits.
    proof fn content_conforms(&self)
        ensures
            conforms(self.content(), Self::tag()),
    ;

    /// The contents tell values apart: two values with the same contents
    /// hold the same.
    proof fn contents_tell(&self, other: &Self)
        requires
            self.content() == other.content(),
        ensures
            self.alike(other),
    ;

    /// The tag, computed.
    fn shape() -> (shape: Shape)
        ensures
            shape == Self::tag(),
    ;

    /// Erases the static type, keeping the contents.
    fn into_payload(self) -> (payload: Payload)
        ensures
            payload@ == self.content(),
    ;

    /// Copies the contents out from behind a reference, erasing the static
    /// type.
    fn value(&self) -> (payload: Payload)
        ensures
            payload@ == self.content(),
    ;

    /// Restores a value of the type from contents that its tag admits.
    fn from_payload(payload: &Payload) -> (value: Self)
        requires
            conforms(payload@, Self::tag()),
        ensures
            value.content() == payload@,
    ;

    /// Wraps the value into a dynamic value.
    fn into_variant(self) -> (variant: Variant)
        ensures
            variant@.tag == Self::tag(),
            variant@.content == self.content(),
    ;
}

/// A dynamic value seen from outside: its tag and what it holds.
pub struct VariantView {
    pub tag: Shape,
    pub content: Content,
}

/// The dynamic value that wrapping `value` gives.
pub open spec fn wrapped<T: TVariant>(value: T) -> VariantView {
    VariantView { tag: T::tag(), content: value.content() }
}

/// What reading a dynamic value as `T` gives: its contents where the tag is
/// that of `T`, nothing otherwise.
pub open spec fn read_as<T: TVariant>(variant: VariantView) -> Option<Content> {
    if variant.tag == T::tag() {
        Some(variant.content)
    } else {
        None
    }
}

/// A value that was wrapped reads back, as the type it was wrapped from,
/// with the contents it had.
pub proof fn lemma_wrapped_reads_back<T: TVariant>(value: T)
    ensures
        read_as::<T>(wrapped(value)) == Some(value.content()),
{
}

/// What is read back holds the same as what was wrapped: a value of the
/// type whose contents are those that reading gives is like the wrapped one.
pub proof fn lemma_read_value_is_wrapped_value<T: TVariant>(wrapped_value: T, read_value: T)
    requires
        read_as::<T>(wrapped(wrapped_value)) == Some(read_value.content()),
    ensures
        read_value.alike(&wrapped_value),
{
    read_value.contents_tell(&wrapped_value);
}

/// Reading a dynamic value as a type whose tag is not the stored one gives
/// nothing, whatever the value holds.
pub proof fn lemma_other_shape_reads_nothing<T: TVariant>(variant: VariantView)
    requires
        variant.tag != T::tag(),
    ensures
        read_as::<T>(variant) is None,
{
}

/// A copy of a dynamic value reads exactly as the value it was made from, as every
/// type: with the same contents where the tag fits, as nothing where it does
/// not.
pub proof fn lemma_copy_reads_alike<T: TVariant>(source: Variant, copy: Variant)
    requires
        copy@ == source@,
    ensures
        read_as::<T>(copy@) == read_as::<T>(source@),
{
}

/// The canonical empty value reads as no number, text, list or tuple: its
/// tag is that of `Empty` alone among the tags of the built-in shapes.
pub proof fn lemma_empty_is_distinct<T: TVariant>()
    requires
        T::tag() != Shape::Empty,
    ensures
        read_as::<T>(wrapped(Empty {  })) is None,
        read_as::<Empty>(wrapped(Empty {  })) == Some(Content::Empty),
{
}

/// A type-erased value together with the tag of the type it was made from.
pub struct Variant {
    value: Payload,
    kind: Shape,
}

impl View for Variant {
    type V = VariantView;

    closed spec fn view(&self) -> VariantView {
        VariantView { tag: self.kind, content: self.value@ }
    }
}

impl Clone for Variant {
    /// Copies through the contents' own deep copy, so the copy has the tag
    /// and the contents of the value it was made from and shares nothing with it.
    fn clone(&self) -> (copy: Self)
        ensures
            copy@ == self@,
    {
        proof {
            use_type_invariant(self);
        }
        Variant { value: self.value.duplicate(), kind: self.kind.duplicate() }
    }
}

impl Variant {
    #[verifier::type_invariant]
    spec fn well_formed(&self) -> bool {
        conforms(self.value@, self.kind)
    }

    /// Puts erased contents and their tag together.
    pub(crate) fn from_parts(value: Payload, kind: Shape) -> (variant: Variant)
        requires
            conforms(value@, kind),
        ensures
            variant@ == (VariantView { tag: kind, content: value@ }),
    {
        Variant { value, kind }
    }

    /// The canonical dynamic value that carries nothing.
    pub fn empty() -> (variant: Variant)
        ensures
            variant@ == wrapped(Empty {}),
    {
        Self::new::<Empty>(Empty {})
    }

    /// Wraps `value`: always succeeds, and records the tag of `T`.
    pub fn new<T: TVariant>(value: T) -> (variant: Variant)
        ensures
            variant@ == wrapped(value),
    {
        proof {
            value.content_conforms();
        }
        Variant { value: value.into_payload(), kind: T::shape() }
    }

    /// Wraps a copy of `value`, which stays with the caller.
    pub fn copy_of<T: TVariant>(value: &T) -> (variant: Variant)
        ensures
            variant@ == wrapped(*value),
    {
        proof {
            value.content_conforms();
        }
        Variant { value: value.value(), kind: T::shape() }
    }

    /// The tag of the wrapped value.
    pub fn kind(&self) -> (shape: Shape)
        ensures
            shape == self@.tag,
    {
        self.kind.duplicate()
    }

    /// Reads the value back as a `T` that is copied out.
    pub fn to_value<T: TVariant + Copy>(&self) -> (result: Result<T, ConversionError>)
        ensures
            match read_as::<T>(self@) {
                Some(content) => result matches Ok(value) && value.content() == content,
                None => result matches Err(error) && error.0@ == "Conversion Failed"@,
            },
    {
        proof {
            use_type_invariant(self);
        }
        let wanted = T::shape();
        if !self.kind.same(&wanted) {
            return Err(ConversionError("Conversion Failed"));
        }
        Ok(T::from_payload(&self.value))
    }

    /// Reads the value back as a `T` that is cloned out.
    pub fn to_value_cloned<T: TVariant + Clone>(&self) -> (result: Result<T, ConversionError>)
        ensures
            match read_as::<T>(self@) {
                Some(content) => result matches Ok(value) && value.content() == content,
                None => result matches Err(error) && error.0@ == "Conversion Failed"@,
            },
    {
        proof {
            use_type_invariant(self);
        }
        let wanted = T::shape();
        if !self.kind.same(&wanted) {
            return Err(ConversionError("Conversion Failed"));
        }
        Ok(T::from_payload(&self.value))
    }
}

impl TVariant for Empty {
    open spec fn tag() -> Shape {
        Shape::Empty
    }

    open spec fn content(&self) -> Content {
        Content::Empty
    }

    open spec fn alike(&self, other: &Self) -> bool {
        true
    }

    proof fn content_conforms(&self) {
    }

    proof fn contents_tell(&self, other: &Self) {
    }

    fn shape() -> (shape: Shape) {
        Shape::Empty
    }

    fn into_payload(self) -> (payload: Payload) {
        Payload::Empty
    }

    fn value(&self) -> (payload: Payload) {
        Payload::Empty
    }

    fn from_payload(payload: &Payload) -> (value: Self) {
        Empty {  }
    }

    fn into_variant(self) -> (variant: Variant) {
        Variant { value: Payload::Empty, kind: Shape::Empty }
    }
}

impl TVariant for bool {
    open spec fn tag() -> Shape {
        Shape::Bool
    }

    open spec fn content(&self) -> Content {
        Content::Bool(*self)
    }

    open spec fn alike(&self, other: &Self) -> bool {
        *self == *other
    }

    proof fn content_conforms(&self) {
    }

    proof fn contents_tell(&self, other: &Self) {
    }

    fn shape() -> (shape: Shape) {
        Shape::Bool
    }

    fn into_payload(self) -> (payload: Payload) {
        Payload::Bool(self)
    }

    fn value(&self) -> (payload: Payload) {
        Payload::Bool(*self)
    }

    fn from_payload(payload: &Payload) -> (value: Self) {
        match payload {
            Payload::Bool(inner) => *inner,
            _ => false,
        }
    }

    fn into_variant(self) -> (variant: Variant) {
        Variant { value: Payload::Bool(self), kind: Shape::Bool }
    }
}

impl TVariant for u8 {
    open spec fn tag() -> Shape {
        Shape::U8
    }

    open spec fn content(&self) -> Content {
        Content::U8(*self)
    }

    open spec fn alike(&self, other: &Self) -> bool {
        *self == *other
    }

    proof fn content_conforms(&self) {
    }

    proof fn contents_tell(&self, other: &Self) {
    }

    fn shape() -> (shape: Shape) {
        Shape::U8
    }

    fn into_payload(self) -> (payload: Payload) {
        Payload::U8(self)
    }

    fn value(&self) -> (payload: Payload) {
        Payload::U8(*self)
    }

    fn from_payload(payload: &Payload) -> (value: Self) {
        match payload {
            Payload::U8(inner) => *inner,
            _ => 0,
        }
    }

    fn into_variant(self) -> (variant: Variant) {
        Variant { value: Payload::U8(self), kind: Shape::U8 }
    }
}

impl TVariant for i8 {
    open spec fn tag() -> Shape {
        Shape::I8
    }

    open spec fn content(&self) -> Content {
        Content::I8(*self)
    }

    open spec fn alike(&self, other: &Self) -> bool {
        *self == *other
    }

    proof fn content_conforms(&self) {
    }

    proof fn contents_tell(&self, other: &Self) {
    }

    fn shape() -> (shape: Shape) {
        Shape::I8
    }

    fn into_payload(self) -> (payload: Payload) {
        Payload::I8(self)
    }

    fn value(&self) -> (payload: Payload) {
        Payload::I8(*self)
    }

    fn from_payload(payload: &Payload) -> (value: Self) {
        match payload {
            Payload::I8(inner) => *inner,
            _ => 0,
        }
    }

    fn into_variant(self) -> (variant: Variant) {
        Variant { value: Payload::I8(self), kind: Shape::I8 }
    }
}

impl TVariant for u16 {
    open spec fn tag() -> Shape {
        Shape::U16
    }

    open spec fn content(&self) -> Content {
        Content::U16(*self)
    }

    open spec fn alike(&self, other: &Self) -> bool {
        *self == *other
    }

    proof fn content_conforms(&self) {
    }

    proof fn contents_tell(&self, other: &Self) {
    }

    fn shape() -> (shape: Shape) {
        Shape::U16
    }

    fn into_payload(self) -> (payload: Payload) {
        Payload::U16(self)
    }

    fn value(&self) -> (payload: Payload) {
        Payload::U16(*self)
    }

    fn from_payload(payload: &Payload) -> (value: Self) {
        match payload {
            Payload::U16(inner) => *inner,
            _ => 0,
        }
    }

    fn into_variant(self) -> (variant: Variant) {
        Variant { value: Payload::U16(self), kind: Shape::U16 }
    }
}

impl TVariant for i16 {
    open spec fn tag() -> Shape {
        Shape::I16
    }

    open spec fn content(&self) -> Content {
        Content::I16(*self)
    }

    open spec fn alike(&self, other: &Self) -> bool {
        *self == *other
    }

    proof fn content_conforms(&self) {
    }

    proof fn contents_tell(&self, other: &Self) {
    }

    fn shape() -> (shape: Shape) {
        Shape::I16
    }

    fn into_payload(self) -> (payload: Payload) {
        Payload::I16(self)
    }

    fn value(&self) -> (payload: Payload) {
        Payload::I16(*self)
    }

    fn from_payload(payload: &Payload) -> (value: Self) {
        match payload {
            Payload::I16(inner) => *inner,
            _ => 0,
        }
    }

    fn into_variant(self) -> (variant: Variant) {
        Variant { value: Payload::I16(self), kind: Shape::I16 }
    }
}

impl TVariant for u32 {
    open spec fn tag() -> Shape {
        Shape::U32
    }

    open spec fn content(&self) -> Content {
        Content::U32(*self)
    }

    open spec fn alike(&self, other: &Self) -> bool {
        *self == *other
    }

    proof fn content_conforms(&self) {
    }

    proof fn contents_tell(&self, other: &Self) {
    }

    fn shape() -> (shape: Shape) {
        Shape::U32
    }

    fn into_payload(self) -> (payload: Payload) {
        Payload::U32(self)
    }

    fn value(&self) -> (payload: Payload) {
        Payload::U32(*self)
    }

    fn from_payload(payload: &Payload) -> (value: Self) {
        match payload {
            Payload::U32(inner) => *inner,
            _ => 0,
        }
    }

    fn into_variant(self) -> (variant: Variant) {
        Variant { value: Payload::U32(self), kind: Shape::U32 }
    }
}

impl TVariant for i32 {
    open spec fn tag() -> Shape {
        Shape::I32
    }

    open spec fn content(&self) -> Content {
        Content::I32(*self)
    }

    open spec fn alike(&self, other: &Self) -> bool {
        *self == *other
    }

    proof fn content_conforms(&self) {
    }

    proof fn contents_tell(&self, other: &Self) {
    }

    fn shape() -> (shape: Shape) {
        Shape::I32
    }

    fn into_payload(self) -> (payload: Payload) {
        Payload::I32(self)
    }

    fn value(&self) -> (payload: Payload) {
        Payload::I32(*self)
    }

    fn from_payload(payload: &Payload) -> (value: Self) {
        match payload {
            Payload::I32(inner) => *inner,
            _ => 0,
        }
    }

    fn into_variant(self) -> (variant: Variant) {
        Variant { value: Payload::I32(self), kind: Shape::I32 }
    }
}

impl TVariant for u64 {
    open spec fn tag() -> Shape {
        Shape::U64
    }

    open spec fn content(&self) -> Content {
        Content::U64(*self)
    }

    open spec fn alike(&self, other: &Self) -> bool {
        *self == *other
    }

    proof fn content_conforms(&self) {
    }

    proof fn contents_tell(&self, other: &Self) {
    }

    fn shape() -> (shape: Shape) {
        Shape::U64
    }

    fn into_payload(self) -> (payload: Payload) {
        Payload::U64(self)
    }

    fn value(&self) -> (payload: Payload) {
        Payload::U64(*self)
    }

    fn from_payload(payload: &Payload) -> (value: Self) {
        match payload {
            Payload::U64(inner) => *inner,
            _ => 0,
        }
    }

    fn into_variant(self) -> (variant: Variant) {
        Variant { value: Payload::U64(self), kind: Shape::U64 }
    }
}

impl TVariant for i64 {
    open spec fn tag() -> Shape {
        Shape::I64
    }

    open spec fn content(&self) -> Content {
        Content::I64(*self)
    }

    open spec fn alike(&self, other: &Self) -> bool {
        *self == *other
    }

    proof fn content_conforms(&self) {
    }

    proof fn contents_tell(&self, other: &Self) {
    }

    fn shape() -> (shape: Shape) {
        Shape::I64
    }

    fn into_payload(self) -> (payload: Payload) {
        Payload::I64(self)
    }

    fn value(&self) -> (payload: Payload) {
        Payload::I64(*self)
    }

    fn from_payload(payload: &Payload) -> (value: Self) {
        match payload {
            Payload::I64(inner) => *inner,
            _ => 0,
        }
    }

    fn into_variant(self) -> (variant: Variant) {
        Variant { value: Payload::I64(self), kind: Shape::I64 }
    }
}

impl TVariant for String {
    open spec fn tag() -> Shape {
        Shape::Text
    }

    open spec fn content(&self) -> Content {
        Content::Text(self@)
    }

    open spec fn alike(&self, other: &Self) -> bool {
        self@ == other@
    }

    proof fn content_conforms(&self) {
    }

    proof fn contents_tell(&self, other: &Self) {
    }

    fn shape() -> (shape: Shape) {
        Shape::Text
    }

    fn into_payload(self) -> (payload: Payload) {
        Payload::Text(self)
    }

    fn value(&self) -> (payload: Payload) {
        Payload::Text(self.clone())
    }

    fn from_payload(payload: &Payload) -> (value: Self) {
        match payload {
            Payload::Text(inner) => inner.clone(),
            _ => String::new(),
        }
    }

    fn into_variant(self) -> (variant: Variant) {
        Variant { value: Payload::Text(self), kind: Shape::Text }
    }
}

impl<T: TVariant> TVariant for Option<T> {
    open spec fn tag() -> Shape {
        Shape::Optional(Box::new(T::tag()))
    }

    open spec fn content(&self) -> Content {
        match self {
            Some(inner) => Content::Optional(Some(Box::new(inner.content()))),
            None => Content::Optional(None),
        }
    }

    open spec fn alike(&self, other: &Self) -> bool {
        match (self, other) {
            (Some(left), Some(right)) => left.alike(right),
            (None, None) => true,
            _ => false,
        }
    }

    proof fn content_conforms(&self) {
        match self {
            Some(inner) => {
                inner.content_conforms();
            },
            None => {},
        }
    }

    proof fn contents_tell(&self, other: &Self) {
        match (self, other) {
            (Some(left), Some(right)) => {
                left.contents_tell(right);
            },
            _ => {},
        }
    }

    fn shape() -> (shape: Shape) {
        Shape::Optional(Box::new(T::shape()))
    }

    fn into_payload(self) -> (payload: Payload) {
        match self {
            Some(inner) => Payload::Optional(Some(Box::new(inner.into_payload()))),
            None => Payload::Optional(None),
        }
    }

    fn value(&self) -> (payload: Payload) {
        match self {
            Some(inner) => Payload::Optional(Some(Box::new(inner.value()))),
            None => Payload::Optional(None),
        }
    }

    fn from_payload(payload: &Payload) -> (value: Self) {
        match payload {
            Payload::Optional(Some(inner)) => Some(T::from_payload(inner)),
            _ => None,
        }
    }

    fn into_variant(self) -> (variant: Variant) {
        proof {
            self.content_conforms();
        }
        Variant { value: self.into_payload(), kind: Self::shape() }
    }
}

impl<T: TVariant> TVariant for Vec<T> {
    open spec fn tag() -> Shape {
        Shape::List(Box::new(T::tag()))
    }

    open spec fn content(&self) -> Content {
        Content::List(Seq::new(self@.len(), |i: int| self@[i].content()))
    }

    open spec fn alike(&self, other: &Self) -> bool {
        &&& self@.len() == other@.len()
        &&& forall|i: int| 0 <= i < self@.len() ==> (#[trigger] self@[i]).alike(&other@[i])
    }

    proof fn content_conforms(&self) {
        let items = self.content()->List_0;
        assert forall|i: int| 0 <= i < items.len() implies conforms(
            #[trigger] items[i],
            T::tag(),
        ) by {
            self@[i].content_conforms();
        }
    }

    proof fn contents_tell(&self, other: &Self) {
        let left = self.content()->List_0;
        let right = other.content()->List_0;
        assert(left.len() == right.len());
        assert forall|i: int| 0 <= i < self@.len() implies (#[trigger] self@[i]).alike(
            &other@[i],
        ) by {
            assert(left[i] == right[i]);
            self@[i].contents_tell(&other@[i]);
        }
    }

    fn shape() -> (shape: Shape) {
        Shape::List(Box::new(T::shape()))
    }

    fn into_payload(self) -> (payload: Payload) {
        let ghost given = self@;
        let mut rest = self;
        let mut reversed: Vec<Payload> = Vec::new();
        while rest.len() > 0
            invariant
                rest@.len() + reversed@.len() == given.len(),
                rest@ == given.subrange(0, rest@.len() as int),
                forall|j: int|
                    0 <= j < reversed@.len() ==> reversed@[j]@ == given[given.len() - 1
                        - j].content(),
            decreases rest@.len(),
        {
            let last = rest.pop();
            match last {
                Some(item) => {
                    reversed.push(item.into_payload());
                },
                None => {},
            }
        }
        let mut ordered: Vec<Payload> = Vec::new();
        while reversed.len() > 0
            invariant
                ordered@.len() + reversed@.len() == given.len(),
                forall|j: int|
                    0 <= j < reversed@.len() ==> reversed@[j]@ == given[given.len() - 1
                        - j].content(),
                forall|j: int| 0 <= j < ordered@.len() ==> ordered@[j]@ == given[j].content(),
            decreases reversed@.len(),
        {
            let last = reversed.pop();
            match last {
                Some(item) => {
                    ordered.push(item);
                },
                None => {},
            }
        }
        let payload = Payload::List(ordered);
        assert(payload.model()->List_0 =~= self.content()->List_0);
        payload
    }

    fn value(&self) -> (payload: Payload) {
        let mut items: Vec<Payload> = Vec::new();
        let mut i: usize = 0;
        while i < self.len()
            invariant
                i <= self.len(),
                items@.len() == i,
                forall|j: int| 0 <= j < i ==> items@[j]@ == self@[j].content(),
            decreases self.len() - i,
        {
            items.push(self[i].value());
            i += 1;
        }
        let payload = Payload::List(items);
        assert(payload.model()->List_0 =~= self.content()->List_0);
        payload
    }

    fn from_payload(payload: &Payload) -> (value: Self) {
        let mut values: Vec<T> = Vec::new();
        match payload {
            Payload::List(items) => {
                let mut i: usize = 0;
                while i < items.len()
                    invariant
                        *payload == Payload::List(*items),
                        conforms(payload@, Self::tag()),
                        i <= items.len(),
                        values@.len() == i,
                        forall|j: int| 0 <= j < i ==> values@[j].content() == items@[j]@,
                    decreases items.len() - i,
                {
                    assert(conforms(payload.model()->List_0[i as int], T::tag()));
                    let item = T::from_payload(&items[i]);
                    values.push(item);
                    i += 1;
                }
                assert(values.content()->List_0 =~= payload.model()->List_0);
            },
            _ => {},
        }
        values
    }

    fn into_variant(self) -> (variant: Variant) {
        proof {
            self.content_conforms();
        }
        Variant { value: self.into_payload(), kind: Self::shape() }
    }
}

} // verus!
