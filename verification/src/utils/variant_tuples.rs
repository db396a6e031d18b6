// Tuples of one to twelve values as dynamic values. A tuple is kept as a
// chain of pairs that ends in `End`, one link for each of its values, so
// every arity has a tag of its own.

use vstd::prelude::*;

use super::variant::{conforms, Content, Payload, Shape, TVariant, Variant};

verus! {

impl<A: TVariant> TVariant for (A,) {
    open spec fn tag() -> Shape {
        let rest = Shape::End;
        Shape::Pair(Box::new(A::tag()), Box::new(rest))
    }

    open spec fn content(&self) -> Content {
        let rest = Content::End;
        Content::Pair(Box::new(self.0.content()), Box::new(rest))
    }

    open spec fn alike(&self, other: &Self) -> bool {
        &&& self.0.alike(&other.0)
    }

    proof fn content_conforms(&self) {
        let content1 = Content::End;
        let shape1 = Shape::End;
        assert(conforms(content1, shape1));
        self.0.content_conforms();
        let content0 = Content::Pair(Box::new(self.0.content()), Box::new(content1));
        let shape0 = Shape::Pair(Box::new(A::tag()), Box::new(shape1));
        assert(conforms(content0, shape0));
    }

    proof fn contents_tell(&self, other: &Self) {
        let left1 = Content::End;
        let right1 = Content::End;
        let left0 = Content::Pair(Box::new(self.0.content()), Box::new(left1));
        let right0 = Content::Pair(Box::new(other.0.content()), Box::new(right1));
        assert(left0 == right0);
        assert(left1 == right1);
        self.0.contents_tell(&other.0);
    }

    fn shape() -> (shape: Shape) {
        let rest = Shape::End;
        Shape::Pair(Box::new(A::shape()), Box::new(rest))
    }

    fn into_payload(self) -> (payload: Payload) {
        let (a0,) = self;
        let payload1 = Payload::End;
        assert(payload1@ == Content::End);
        let payload0 = Payload::Pair(Box::new(a0.into_payload()), Box::new(payload1));
        assert(payload0@ == Content::Pair(Box::new(self.0.content()), Box::new(payload1@)));
        payload0
    }

    fn value(&self) -> (payload: Payload) {
        let payload1 = Payload::End;
        assert(payload1@ == Content::End);
        let payload0 = Payload::Pair(Box::new(self.0.value()), Box::new(payload1));
        assert(payload0@ == Content::Pair(Box::new(self.0.content()), Box::new(payload1@)));
        payload0
    }

    fn from_payload(payload: &Payload) -> (value: Self) {
        let ghost shape1 = Shape::End;
        let ghost shape0 = Shape::Pair(Box::new(A::tag()), Box::new(shape1));
        let rest0 = payload;
        assert(conforms(rest0@, shape0));
        let (a0, rest1) = rest0.split();
        let a0 = A::from_payload(a0);
        assert(conforms(rest1@, shape1));
        assert(rest1@ == Content::End);
        (a0,)
    }

    fn into_variant(self) -> (variant: Variant) {
        proof {
            self.content_conforms();
        }
        Variant::from_parts(self.into_payload(), Self::shape())
    }
}

impl<A: TVariant, B: TVariant> TVariant for (A, B) {
    open spec fn tag() -> Shape {
        let rest = Shape::End;
        let rest = Shape::Pair(Box::new(B::tag()), Box::new(rest));
        Shape::Pair(Box::new(A::tag()), Box::new(rest))
    }

    open spec fn content(&self) -> Content {
        let rest = Content::End;
        let rest = Content::Pair(Box::new(self.1.content()), Box::new(rest));
        Content::Pair(Box::new(self.0.content()), Box::new(rest))
    }

    open spec fn alike(&self, other: &Self) -> bool {
        &&& self.0.alike(&other.0)
        &&& self.1.alike(&other.1)
    }

    proof fn content_conforms(&self) {
        let content2 = Content::End;
        let shape2 = Shape::End;
        assert(conforms(content2, shape2));
        self.1.content_conforms();
        let content1 = Content::Pair(Box::new(self.1.content()), Box::new(content2));
        let shape1 = Shape::Pair(Box::new(B::tag()), Box::new(shape2));
        assert(conforms(content1, shape1));
        self.0.content_conforms();
        let content0 = Content::Pair(Box::new(self.0.content()), Box::new(content1));
        let shape0 = Shape::Pair(Box::new(A::tag()), Box::new(shape1));
        assert(conforms(content0, shape0));
    }

    proof fn contents_tell(&self, other: &Self) {
        let left2 = Content::End;
        let right2 = Content::End;
        let left1 = Content::Pair(Box::new(self.1.content()), Box::new(left2));
        let right1 = Content::Pair(Box::new(other.1.content()), Box::new(right2));
        let left0 = Content::Pair(Box::new(self.0.content()), Box::new(left1));
        let right0 = Content::Pair(Box::new(other.0.content()), Box::new(right1));
        assert(left0 == right0);
        assert(left1 == right1);
        self.0.contents_tell(&other.0);
        assert(left2 == right2);
        self.1.contents_tell(&other.1);
    }

    fn shape() -> (shape: Shape) {
        let rest = Shape::End;
        let rest = Shape::Pair(Box::new(B::shape()), Box::new(rest));
        Shape::Pair(Box::new(A::shape()), Box::new(rest))
    }

    fn into_payload(self) -> (payload: Payload) {
        let (a0, b0) = self;
        let payload2 = Payload::End;
        assert(payload2@ == Content::End);
        let payload1 = Payload::Pair(Box::new(b0.into_payload()), Box::new(payload2));
        assert(payload1@ == Content::Pair(Box::new(self.1.content()), Box::new(payload2@)));
        let payload0 = Payload::Pair(Box::new(a0.into_payload()), Box::new(payload1));
        assert(payload0@ == Content::Pair(Box::new(self.0.content()), Box::new(payload1@)));
        payload0
    }

    fn value(&self) -> (payload: Payload) {
        let payload2 = Payload::End;
        assert(payload2@ == Content::End);
        let payload1 = Payload::Pair(Box::new(self.1.value()), Box::new(payload2));
        assert(payload1@ == Content::Pair(Box::new(self.1.content()), Box::new(payload2@)));
        let payload0 = Payload::Pair(Box::new(self.0.value()), Box::new(payload1));
        assert(payload0@ == Content::Pair(Box::new(self.0.content()), Box::new(payload1@)));
        payload0
    }

    fn from_payload(payload: &Payload) -> (value: Self) {
        let ghost shape2 = Shape::End;
        let ghost shape1 = Shape::Pair(Box::new(B::tag()), Box::new(shape2));
        let ghost shape0 = Shape::Pair(Box::new(A::tag()), Box::new(shape1));
        let rest0 = payload;
        assert(conforms(rest0@, shape0));
        let (a0, rest1) = rest0.split();
        let a0 = A::from_payload(a0);
        assert(conforms(rest1@, shape1));
        let (b0, rest2) = rest1.split();
        let b0 = B::from_payload(b0);
        assert(conforms(rest2@, shape2));
        assert(rest2@ == Content::End);
        (a0, b0)
    }

    fn into_variant(self) -> (variant: Variant) {
        proof {
            self.content_conforms();
        }
        Variant::from_parts(self.into_payload(), Self::shape())
    }
}

impl<A: TVariant, B: TVariant, C: TVariant> TVariant for (A, B, C) {
    open spec fn tag() -> Shape {
        let rest = Shape::End;
        let rest = Shape::Pair(Box::new(C::tag()), Box::new(rest));
        let rest = Shape::Pair(Box::new(B::tag()), Box::new(rest));
        Shape::Pair(Box::new(A::tag()), Box::new(rest))
    }

    open spec fn content(&self) -> Content {
        let rest = Content::End;
        let rest = Content::Pair(Box::new(self.2.content()), Box::new(rest));
        let rest = Content::Pair(Box::new(self.1.content()), Box::new(rest));
        Content::Pair(Box::new(self.0.content()), Box::new(rest))
    }

    open spec fn alike(&self, other: &Self) -> bool {
        &&& self.0.alike(&other.0)
        &&& self.1.alike(&other.1)
        &&& self.2.alike(&other.2)
    }

    proof fn content_conforms(&self) {
        let content3 = Content::End;
        let shape3 = Shape::End;
        assert(conforms(content3, shape3));
        self.2.content_conforms();
        let content2 = Content::Pair(Box::new(self.2.content()), Box::new(content3));
        let shape2 = Shape::Pair(Box::new(C::tag()), Box::new(shape3));
        assert(conforms(content2, shape2));
        self.1.content_conforms();
        let content1 = Content::Pair(Box::new(self.1.content()), Box::new(content2));
        let shape1 = Shape::Pair(Box::new(B::tag()), Box::new(shape2));
        assert(conforms(content1, shape1));
        self.0.content_conforms();
        let content0 = Content::Pair(Box::new(self.0.content()), Box::new(content1));
        let shape0 = Shape::Pair(Box::new(A::tag()), Box::new(shape1));
        assert(conforms(content0, shape0));
    }

    proof fn contents_tell(&self, other: &Self) {
        let left3 = Content::End;
        let right3 = Content::End;
        let left2 = Content::Pair(Box::new(self.2.content()), Box::new(left3));
        let right2 = Content::Pair(Box::new(other.2.content()), Box::new(right3));
        let left1 = Content::Pair(Box::new(self.1.content()), Box::new(left2));
        let right1 = Content::Pair(Box::new(other.1.content()), Box::new(right2));
        let left0 = Content::Pair(Box::new(self.0.content()), Box::new(left1));
        let right0 = Content::Pair(Box::new(other.0.content()), Box::new(right1));
        assert(left0 == right0);
        assert(left1 == right1);
        self.0.contents_tell(&other.0);
        assert(left2 == right2);
        self.1.contents_tell(&other.1);
        assert(left3 == right3);
        self.2.contents_tell(&other.2);
    }

    fn shape() -> (shape: Shape) {
        let rest = Shape::End;
        let rest = Shape::Pair(Box::new(C::shape()), Box::new(rest));
        let rest = Shape::Pair(Box::new(B::shape()), Box::new(rest));
        Shape::Pair(Box::new(A::shape()), Box::new(rest))
    }

    fn into_payload(self) -> (payload: Payload) {
        let (a0, b0, c0) = self;
        let payload3 = Payload::End;
        assert(payload3@ == Content::End);
        let payload2 = Payload::Pair(Box::new(c0.into_payload()), Box::new(payload3));
        assert(payload2@ == Content::Pair(Box::new(self.2.content()), Box::new(payload3@)));
        let payload1 = Payload::Pair(Box::new(b0.into_payload()), Box::new(payload2));
        assert(payload1@ == Content::Pair(Box::new(self.1.content()), Box::new(payload2@)));
        let payload0 = Payload::Pair(Box::new(a0.into_payload()), Box::new(payload1));
        assert(payload0@ == Content::Pair(Box::new(self.0.content()), Box::new(payload1@)));
        payload0
    }

    fn value(&self) -> (payload: Payload) {
        let payload3 = Payload::End;
        assert(payload3@ == Content::End);
        let payload2 = Payload::Pair(Box::new(self.2.value()), Box::new(payload3));
        assert(payload2@ == Content::Pair(Box::new(self.2.content()), Box::new(payload3@)));
        let payload1 = Payload::Pair(Box::new(self.1.value()), Box::new(payload2));
        assert(payload1@ == Content::Pair(Box::new(self.1.content()), Box::new(payload2@)));
        let payload0 = Payload::Pair(Box::new(self.0.value()), Box::new(payload1));
        assert(payload0@ == Content::Pair(Box::new(self.0.content()), Box::new(payload1@)));
        payload0
    }

    fn from_payload(payload: &Payload) -> (value: Self) {
        let ghost shape3 = Shape::End;
        let ghost shape2 = Shape::Pair(Box::new(C::tag()), Box::new(shape3));
        let ghost shape1 = Shape::Pair(Box::new(B::tag()), Box::new(shape2));
        let ghost shape0 = Shape::Pair(Box::new(A::tag()), Box::new(shape1));
        let rest0 = payload;
        assert(conforms(rest0@, shape0));
        let (a0, rest1) = rest0.split();
        let a0 = A::from_payload(a0);
        assert(conforms(rest1@, shape1));
        let (b0, rest2) = rest1.split();
        let b0 = B::from_payload(b0);
        assert(conforms(rest2@, shape2));
        let (c0, rest3) = rest2.split();
        let c0 = C::from_payload(c0);
        assert(conforms(rest3@, shape3));
        assert(rest3@ == Content::End);
        (a0, b0, c0)
    }

    fn into_variant(self) -> (variant: Variant) {
        proof {
            self.content_conforms();
        }
        Variant::from_parts(self.into_payload(), Self::shape())
    }
}

impl<A: TVariant, B: TVariant, C: TVariant, D: TVariant> TVariant for (A, B, C, D) {
    open spec fn tag() -> Shape {
        let rest = Shape::End;
        let rest = Shape::Pair(Box::new(D::tag()), Box::new(rest));
        let rest = Shape::Pair(Box::new(C::tag()), Box::new(rest));
        let rest = Shape::Pair(Box::new(B::tag()), Box::new(rest));
        Shape::Pair(Box::new(A::tag()), Box::new(rest))
    }

    open spec fn content(&self) -> Content {
        let rest = Content::End;
        let rest = Content::Pair(Box::new(self.3.content()), Box::new(rest));
        let rest = Content::Pair(Box::new(self.2.content()), Box::new(rest));
        let rest = Content::Pair(Box::new(self.1.content()), Box::new(rest));
        Content::Pair(Box::new(self.0.content()), Box::new(rest))
    }

    open spec fn alike(&self, other: &Self) -> bool {
        &&& self.0.alike(&other.0)
        &&& self.1.alike(&other.1)
        &&& self.2.alike(&other.2)
        &&& self.3.alike(&other.3)
    }

    proof fn content_conforms(&self) {
        let content4 = Content::End;
        let shape4 = Shape::End;
        assert(conforms(content4, shape4));
        self.3.content_conforms();
        let content3 = Content::Pair(Box::new(self.3.content()), Box::new(content4));
        let shape3 = Shape::Pair(Box::new(D::tag()), Box::new(shape4));
        assert(conforms(content3, shape3));
        self.2.content_conforms();
        let content2 = Content::Pair(Box::new(self.2.content()), Box::new(content3));
        let shape2 = Shape::Pair(Box::new(C::tag()), Box::new(shape3));
        assert(conforms(content2, shape2));
        self.1.content_conforms();
        let content1 = Content::Pair(Box::new(self.1.content()), Box::new(content2));
        let shape1 = Shape::Pair(Box::new(B::tag()), Box::new(shape2));
        assert(conforms(content1, shape1));
        self.0.content_conforms();
        let content0 = Content::Pair(Box::new(self.0.content()), Box::new(content1));
        let shape0 = Shape::Pair(Box::new(A::tag()), Box::new(shape1));
        assert(conforms(content0, shape0));
    }

    proof fn contents_tell(&self, other: &Self) {
        let left4 = Content::End;
        let right4 = Content::End;
        let left3 = Content::Pair(Box::new(self.3.content()), Box::new(left4));
        let right3 = Content::Pair(Box::new(other.3.content()), Box::new(right4));
        let left2 = Content::Pair(Box::new(self.2.content()), Box::new(left3));
        let right2 = Content::Pair(Box::new(other.2.content()), Box::new(right3));
        let left1 = Content::Pair(Box::new(self.1.content()), Box::new(left2));
        let right1 = Content::Pair(Box::new(other.1.content()), Box::new(right2));
        let left0 = Content::Pair(Box::new(self.0.content()), Box::new(left1));
        let right0 = Content::Pair(Box::new(other.0.content()), Box::new(right1));
        assert(left0 == right0);
        assert(left1 == right1);
        self.0.contents_tell(&other.0);
        assert(left2 == right2);
        self.1.contents_tell(&other.1);
        assert(left3 == right3);
        self.2.contents_tell(&other.2);
        assert(left4 == right4);
        self.3.contents_tell(&other.3);
    }

    fn shape() -> (shape: Shape) {
        let rest = Shape::End;
        let rest = Shape::Pair(Box::new(D::shape()), Box::new(rest));
        let rest = Shape::Pair(Box::new(C::shape()), Box::new(rest));
        let rest = Shape::Pair(Box::new(B::shape()), Box::new(rest));
        Shape::Pair(Box::new(A::shape()), Box::new(rest))
    }

    fn into_payload(self) -> (payload: Payload) {
        let (a0, b0, c0, d0) = self;
        let payload4 = Payload::End;
        assert(payload4@ == Content::End);
        let payload3 = Payload::Pair(Box::new(d0.into_payload()), Box::new(payload4));
        assert(payload3@ == Content::Pair(Box::new(self.3.content()), Box::new(payload4@)));
        let payload2 = Payload::Pair(Box::new(c0.into_payload()), Box::new(payload3));
        assert(payload2@ == Content::Pair(Box::new(self.2.content()), Box::new(payload3@)));
        let payload1 = Payload::Pair(Box::new(b0.into_payload()), Box::new(payload2));
        assert(payload1@ == Content::Pair(Box::new(self.1.content()), Box::new(payload2@)));
        let payload0 = Payload::Pair(Box::new(a0.into_payload()), Box::new(payload1));
        assert(payload0@ == Content::Pair(Box::new(self.0.content()), Box::new(payload1@)));
        payload0
    }

    fn value(&self) -> (payload: Payload) {
        let payload4 = Payload::End;
        assert(payload4@ == Content::End);
        let payload3 = Payload::Pair(Box::new(self.3.value()), Box::new(payload4));
        assert(payload3@ == Content::Pair(Box::new(self.3.content()), Box::new(payload4@)));
        let payload2 = Payload::Pair(Box::new(self.2.value()), Box::new(payload3));
        assert(payload2@ == Content::Pair(Box::new(self.2.content()), Box::new(payload3@)));
        let payload1 = Payload::Pair(Box::new(self.1.value()), Box::new(payload2));
        assert(payload1@ == Content::Pair(Box::new(self.1.content()), Box::new(payload2@)));
        let payload0 = Payload::Pair(Box::new(self.0.value()), Box::new(payload1));
        assert(payload0@ == Content::Pair(Box::new(self.0.content()), Box::new(payload1@)));
        payload0
    }

    fn from_payload(payload: &Payload) -> (value: Self) {
        let ghost shape4 = Shape::End;
        let ghost shape3 = Shape::Pair(Box::new(D::tag()), Box::new(shape4));
        let ghost shape2 = Shape::Pair(Box::new(C::tag()), Box::new(shape3));
        let ghost shape1 = Shape::Pair(Box::new(B::tag()), Box::new(shape2));
        let ghost shape0 = Shape::Pair(Box::new(A::tag()), Box::new(shape1));
        let rest0 = payload;
        assert(conforms(rest0@, shape0));
        let (a0, rest1) = rest0.split();
        let a0 = A::from_payload(a0);
        assert(conforms(rest1@, shape1));
        let (b0, rest2) = rest1.split();
        let b0 = B::from_payload(b0);
        assert(conforms(rest2@, shape2));
        let (c0, rest3) = rest2.split();
        let c0 = C::from_payload(c0);
        assert(conforms(rest3@, shape3));
        let (d0, rest4) = rest3.split();
        let d0 = D::from_payload(d0);
        assert(conforms(rest4@, shape4));
        assert(rest4@ == Content::End);
        (a0, b0, c0, d0)
    }

    fn into_variant(self) -> (variant: Variant) {
        proof {
            self.content_conforms();
        }
        Variant::from_parts(self.into_payload(), Self::shape())
    }
}

impl<A: TVariant, B: TVariant, C: TVariant, D: TVariant, E: TVariant> TVariant for (A, B, C, D, E) {
    open spec fn tag() -> Shape {
        let rest = Shape::End;
        let rest = Shape::Pair(Box::new(E::tag()), Box::new(rest));
        let rest = Shape::Pair(Box::new(D::tag()), Box::new(rest));
        let rest = Shape::Pair(Box::new(C::tag()), Box::new(rest));
        let rest = Shape::Pair(Box::new(B::tag()), Box::new(rest));
        Shape::Pair(Box::new(A::tag()), Box::new(rest))
    }

    open spec fn content(&self) -> Content {
        let rest = Content::End;
        let rest = Content::Pair(Box::new(self.4.content()), Box::new(rest));
        let rest = Content::Pair(Box::new(self.3.content()), Box::new(rest));
        let rest = Content::Pair(Box::new(self.2.content()), Box::new(rest));
        let rest = Content::Pair(Box::new(self.1.content()), Box::new(rest));
        Content::Pair(Box::new(self.0.content()), Box::new(rest))
    }

    open spec fn alike(&self, other: &Self) -> bool {
        &&& self.0.alike(&other.0)
        &&& self.1.alike(&other.1)
        &&& self.2.alike(&other.2)
        &&& self.3.alike(&other.3)
        &&& self.4.alike(&other.4)
    }

    proof fn content_conforms(&self) {
        let content5 = Content::End;
        let shape5 = Shape::End;
        assert(conforms(content5, shape5));
        self.4.content_conforms();
        let content4 = Content::Pair(Box::new(self.4.content()), Box::new(content5));
        let shape4 = Shape::Pair(Box::new(E::tag()), Box::new(shape5));
        assert(conforms(content4, shape4));
        self.3.content_conforms();
        let content3 = Content::Pair(Box::new(self.3.content()), Box::new(content4));
        let shape3 = Shape::Pair(Box::new(D::tag()), Box::new(shape4));
        assert(conforms(content3, shape3));
        self.2.content_conforms();
        let content2 = Content::Pair(Box::new(self.2.content()), Box::new(content3));
        let shape2 = Shape::Pair(Box::new(C::tag()), Box::new(shape3));
        assert(conforms(content2, shape2));
        self.1.content_conforms();
        let content1 = Content::Pair(Box::new(self.1.content()), Box::new(content2));
        let shape1 = Shape::Pair(Box::new(B::tag()), Box::new(shape2));
        assert(conforms(content1, shape1));
        self.0.content_conforms();
        let content0 = Content::Pair(Box::new(self.0.content()), Box::new(content1));
        let shape0 = Shape::Pair(Box::new(A::tag()), Box::new(shape1));
        assert(conforms(content0, shape0));
    }

    proof fn contents_tell(&self, other: &Self) {
        let left5 = Content::End;
        let right5 = Content::End;
        let left4 = Content::Pair(Box::new(self.4.content()), Box::new(left5));
        let right4 = Content::Pair(Box::new(other.4.content()), Box::new(right5));
        let left3 = Content::Pair(Box::new(self.3.content()), Box::new(left4));
        let right3 = Content::Pair(Box::new(other.3.content()), Box::new(right4));
        let left2 = Content::Pair(Box::new(self.2.content()), Box::new(left3));
        let right2 = Content::Pair(Box::new(other.2.content()), Box::new(right3));
        let left1 = Content::Pair(Box::new(self.1.content()), Box::new(left2));
        let right1 = Content::Pair(Box::new(other.1.content()), Box::new(right2));
        let left0 = Content::Pair(Box::new(self.0.content()), Box::new(left1));
        let right0 = Content::Pair(Box::new(other.0.content()), Box::new(right1));
        assert(left0 == right0);
        assert(left1 == right1);
        self.0.contents_tell(&other.0);
        assert(left2 == right2);
        self.1.contents_tell(&other.1);
        assert(left3 == right3);
        self.2.contents_tell(&other.2);
        assert(left4 == right4);
        self.3.contents_tell(&other.3);
        assert(left5 == right5);
        self.4.contents_tell(&other.4);
    }

    fn shape() -> (shape: Shape) {
        let rest = Shape::End;
        let rest = Shape::Pair(Box::new(E::shape()), Box::new(rest));
        let rest = Shape::Pair(Box::new(D::shape()), Box::new(rest));
        let rest = Shape::Pair(Box::new(C::shape()), Box::new(rest));
        let rest = Shape::Pair(Box::new(B::shape()), Box::new(rest));
        Shape::Pair(Box::new(A::shape()), Box::new(rest))
    }

    fn into_payload(self) -> (payload: Payload) {
        let (a0, b0, c0, d0, e0) = self;
        let payload5 = Payload::End;
        assert(payload5@ == Content::End);
        let payload4 = Payload::Pair(Box::new(e0.into_payload()), Box::new(payload5));
        assert(payload4@ == Content::Pair(Box::new(self.4.content()), Box::new(payload5@)));
        let payload3 = Payload::Pair(Box::new(d0.into_payload()), Box::new(payload4));
        assert(payload3@ == Content::Pair(Box::new(self.3.content()), Box::new(payload4@)));
        let payload2 = Payload::Pair(Box::new(c0.into_payload()), Box::new(payload3));
        assert(payload2@ == Content::Pair(Box::new(self.2.content()), Box::new(payload3@)));
        let payload1 = Payload::Pair(Box::new(b0.into_payload()), Box::new(payload2));
        assert(payload1@ == Content::Pair(Box::new(self.1.content()), Box::new(payload2@)));
        let payload0 = Payload::Pair(Box::new(a0.into_payload()), Box::new(payload1));
        assert(payload0@ == Content::Pair(Box::new(self.0.content()), Box::new(payload1@)));
        payload0
    }

    fn value(&self) -> (payload: Payload) {
        let payload5 = Payload::End;
        assert(payload5@ == Content::End);
        let payload4 = Payload::Pair(Box::new(self.4.value()), Box::new(payload5));
        assert(payload4@ == Content::Pair(Box::new(self.4.content()), Box::new(payload5@)));
        let payload3 = Payload::Pair(Box::new(self.3.value()), Box::new(payload4));
        assert(payload3@ == Content::Pair(Box::new(self.3.content()), Box::new(payload4@)));
        let payload2 = Payload::Pair(Box::new(self.2.value()), Box::new(payload3));
        assert(payload2@ == Content::Pair(Box::new(self.2.content()), Box::new(payload3@)));
        let payload1 = Payload::Pair(Box::new(self.1.value()), Box::new(payload2));
        assert(payload1@ == Content::Pair(Box::new(self.1.content()), Box::new(payload2@)));
        let payload0 = Payload::Pair(Box::new(self.0.value()), Box::new(payload1));
        assert(payload0@ == Content::Pair(Box::new(self.0.content()), Box::new(payload1@)));
        payload0
    }

    fn from_payload(payload: &Payload) -> (value: Self) {
        let ghost shape5 = Shape::End;
        let ghost shape4 = Shape::Pair(Box::new(E::tag()), Box::new(shape5));
        let ghost shape3 = Shape::Pair(Box::new(D::tag()), Box::new(shape4));
        let ghost shape2 = Shape::Pair(Box::new(C::tag()), Box::new(shape3));
        let ghost shape1 = Shape::Pair(Box::new(B::tag()), Box::new(shape2));
        let ghost shape0 = Shape::Pair(Box::new(A::tag()), Box::new(shape1));
        let rest0 = payload;
        assert(conforms(rest0@, shape0));
        let (a0, rest1) = rest0.split();
        let a0 = A::from_payload(a0);
        assert(conforms(rest1@, shape1));
        let (b0, rest2) = rest1.split();
        let b0 = B::from_payload(b0);
        assert(conforms(rest2@, shape2));
        let (c0, rest3) = rest2.split();
        let c0 = C::from_payload(c0);
        assert(conforms(rest3@, shape3));
        let (d0, rest4) = rest3.split();
        let d0 = D::from_payload(d0);
        assert(conforms(rest4@, shape4));
        let (e0, rest5) = rest4.split();
        let e0 = E::from_payload(e0);
        assert(conforms(rest5@, shape5));
        assert(rest5@ == Content::End);
        (a0, b0, c0, d0, e0)
    }

    fn into_variant(self) -> (variant: Variant) {
        proof {
            self.content_conforms();
        }
        Variant::from_parts(self.into_payload(), Self::shape())
    }
}

impl<
    A: TVariant,
    B: TVariant,
    C: TVariant,
    D: TVariant,
    E: TVariant,
    F: TVariant,
> TVariant for (A, B, C, D, E, F) {
    open spec fn tag() -> Shape {
        let rest = Shape::End;
        let rest = Shape::Pair(Box::new(F::tag()), Box::new(rest));
        let rest = Shape::Pair(Box::new(E::tag()), Box::new(rest));
        let rest = Shape::Pair(Box::new(D::tag()), Box::new(rest));
        let rest = Shape::Pair(Box::new(C::tag()), Box::new(rest));
        let rest = Shape::Pair(Box::new(B::tag()), Box::new(rest));
        Shape::Pair(Box::new(A::tag()), Box::new(rest))
    }

    open spec fn content(&self) -> Content {
        let rest = Content::End;
        let rest = Content::Pair(Box::new(self.5.content()), Box::new(rest));
        let rest = Content::Pair(Box::new(self.4.content()), Box::new(rest));
        let rest = Content::Pair(Box::new(self.3.content()), Box::new(rest));
        let rest = Content::Pair(Box::new(self.2.content()), Box::new(rest));
        let rest = Content::Pair(Box::new(self.1.content()), Box::new(rest));
        Content::Pair(Box::new(self.0.content()), Box::new(rest))
    }

    open spec fn alike(&self, other: &Self) -> bool {
        &&& self.0.alike(&other.0)
        &&& self.1.alike(&other.1)
        &&& self.2.alike(&other.2)
        &&& self.3.alike(&other.3)
        &&& self.4.alike(&other.4)
        &&& self.5.alike(&other.5)
    }

    proof fn content_conforms(&self) {
        let content6 = Content::End;
        let shape6 = Shape::End;
        assert(conforms(content6, shape6));
        self.5.content_conforms();
        let content5 = Content::Pair(Box::new(self.5.content()), Box::new(content6));
        let shape5 = Shape::Pair(Box::new(F::tag()), Box::new(shape6));
        assert(conforms(content5, shape5));
        self.4.content_conforms();
        let content4 = Content::Pair(Box::new(self.4.content()), Box::new(content5));
        let shape4 = Shape::Pair(Box::new(E::tag()), Box::new(shape5));
        assert(conforms(content4, shape4));
        self.3.content_conforms();
        let content3 = Content::Pair(Box::new(self.3.content()), Box::new(content4));
        let shape3 = Shape::Pair(Box::new(D::tag()), Box::new(shape4));
        assert(conforms(content3, shape3));
        self.2.content_conforms();
        let content2 = Content::Pair(Box::new(self.2.content()), Box::new(content3));
        let shape2 = Shape::Pair(Box::new(C::tag()), Box::new(shape3));
        assert(conforms(content2, shape2));
        self.1.content_conforms();
        let content1 = Content::Pair(Box::new(self.1.content()), Box::new(content2));
        let shape1 = Shape::Pair(Box::new(B::tag()), Box::new(shape2));
        assert(conforms(content1, shape1));
        self.0.content_conforms();
        let content0 = Content::Pair(Box::new(self.0.content()), Box::new(content1));
        let shape0 = Shape::Pair(Box::new(A::tag()), Box::new(shape1));
        assert(conforms(content0, shape0));
    }

    proof fn contents_tell(&self, other: &Self) {
        let left6 = Content::End;
        let right6 = Content::End;
        let left5 = Content::Pair(Box::new(self.5.content()), Box::new(left6));
        let right5 = Content::Pair(Box::new(other.5.content()), Box::new(right6));
        let left4 = Content::Pair(Box::new(self.4.content()), Box::new(left5));
        let right4 = Content::Pair(Box::new(other.4.content()), Box::new(right5));
        let left3 = Content::Pair(Box::new(self.3.content()), Box::new(left4));
        let right3 = Content::Pair(Box::new(other.3.content()), Box::new(right4));
        let left2 = Content::Pair(Box::new(self.2.content()), Box::new(left3));
        let right2 = Content::Pair(Box::new(other.2.content()), Box::new(right3));
        let left1 = Content::Pair(Box::new(self.1.content()), Box::new(left2));
        let right1 = Content::Pair(Box::new(other.1.content()), Box::new(right2));
        let left0 = Content::Pair(Box::new(self.0.content()), Box::new(left1));
        let right0 = Content::Pair(Box::new(other.0.content()), Box::new(right1));
        assert(left0 == right0);
        assert(left1 == right1);
        self.0.contents_tell(&other.0);
        assert(left2 == right2);
        self.1.contents_tell(&other.1);
        assert(left3 == right3);
        self.2.contents_tell(&other.2);
        assert(left4 == right4);
        self.3.contents_tell(&other.3);
        assert(left5 == right5);
        self.4.contents_tell(&other.4);
        assert(left6 == right6);
        self.5.contents_tell(&other.5);
    }

    fn shape() -> (shape: Shape) {
        let rest = Shape::End;
        let rest = Shape::Pair(Box::new(F::shape()), Box::new(rest));
        let rest = Shape::Pair(Box::new(E::shape()), Box::new(rest));
        let rest = Shape::Pair(Box::new(D::shape()), Box::new(rest));
        let rest = Shape::Pair(Box::new(C::shape()), Box::new(rest));
        let rest = Shape::Pair(Box::new(B::shape()), Box::new(rest));
        Shape::Pair(Box::new(A::shape()), Box::new(rest))
    }

    fn into_payload(self) -> (payload: Payload) {
        let (a0, b0, c0, d0, e0, f0) = self;
        let payload6 = Payload::End;
        assert(payload6@ == Content::End);
        let payload5 = Payload::Pair(Box::new(f0.into_payload()), Box::new(payload6));
        assert(payload5@ == Content::Pair(Box::new(self.5.content()), Box::new(payload6@)));
        let payload4 = Payload::Pair(Box::new(e0.into_payload()), Box::new(payload5));
        assert(payload4@ == Content::Pair(Box::new(self.4.content()), Box::new(payload5@)));
        let payload3 = Payload::Pair(Box::new(d0.into_payload()), Box::new(payload4));
        assert(payload3@ == Content::Pair(Box::new(self.3.content()), Box::new(payload4@)));
        let payload2 = Payload::Pair(Box::new(c0.into_payload()), Box::new(payload3));
        assert(payload2@ == Content::Pair(Box::new(self.2.content()), Box::new(payload3@)));
        let payload1 = Payload::Pair(Box::new(b0.into_payload()), Box::new(payload2));
        assert(payload1@ == Content::Pair(Box::new(self.1.content()), Box::new(payload2@)));
        let payload0 = Payload::Pair(Box::new(a0.into_payload()), Box::new(payload1));
        assert(payload0@ == Content::Pair(Box::new(self.0.content()), Box::new(payload1@)));
        payload0
    }

    fn value(&self) -> (payload: Payload) {
        let payload6 = Payload::End;
        assert(payload6@ == Content::End);
        let payload5 = Payload::Pair(Box::new(self.5.value()), Box::new(payload6));
        assert(payload5@ == Content::Pair(Box::new(self.5.content()), Box::new(payload6@)));
        let payload4 = Payload::Pair(Box::new(self.4.value()), Box::new(payload5));
        assert(payload4@ == Content::Pair(Box::new(self.4.content()), Box::new(payload5@)));
        let payload3 = Payload::Pair(Box::new(self.3.value()), Box::new(payload4));
        assert(payload3@ == Content::Pair(Box::new(self.3.content()), Box::new(payload4@)));
        let payload2 = Payload::Pair(Box::new(self.2.value()), Box::new(payload3));
        assert(payload2@ == Content::Pair(Box::new(self.2.content()), Box::new(payload3@)));
        let payload1 = Payload::Pair(Box::new(self.1.value()), Box::new(payload2));
        assert(payload1@ == Content::Pair(Box::new(self.1.content()), Box::new(payload2@)));
        let payload0 = Payload::Pair(Box::new(self.0.value()), Box::new(payload1));
        assert(payload0@ == Content::Pair(Box::new(self.0.content()), Box::new(payload1@)));
        payload0
    }

    fn from_payload(payload: &Payload) -> (value: Self) {
        let ghost shape6 = Shape::End;
        let ghost shape5 = Shape::Pair(Box::new(F::tag()), Box::new(shape6));
        let ghost shape4 = Shape::Pair(Box::new(E::tag()), Box::new(shape5));
        let ghost shape3 = Shape::Pair(Box::new(D::tag()), Box::new(shape4));
        let ghost shape2 = Shape::Pair(Box::new(C::tag()), Box::new(shape3));
        let ghost shape1 = Shape::Pair(Box::new(B::tag()), Box::new(shape2));
        let ghost shape0 = Shape::Pair(Box::new(A::tag()), Box::new(shape1));
        let rest0 = payload;
        assert(conforms(rest0@, shape0));
        let (a0, rest1) = rest0.split();
        let a0 = A::from_payload(a0);
        assert(conforms(rest1@, shape1));
        let (b0, rest2) = rest1.split();
        let b0 = B::from_payload(b0);
        assert(conforms(rest2@, shape2));
        let (c0, rest3) = rest2.split();
        let c0 = C::from_payload(c0);
        assert(conforms(rest3@, shape3));
        let (d0, rest4) = rest3.split();
        let d0 = D::from_payload(d0);
        assert(conforms(rest4@, shape4));
        let (e0, rest5) = rest4.split();
        let e0 = E::from_payload(e0);
        assert(conforms(rest5@, shape5));
        let (f0, rest6) = rest5.split();
        let f0 = F::from_payload(f0);
        assert(conforms(rest6@, shape6));
        assert(rest6@ == Content::End);
        (a0, b0, c0, d0, e0, f0)
    }

    fn into_variant(self) -> (variant: Variant) {
        proof {
            self.content_conforms();
        }
        Variant::from_parts(self.into_payload(), Self::shape())
    }
}

impl<
    A: TVariant,
    B: TVariant,
    C: TVariant,
    D: TVariant,
    E: TVariant,
    F: TVariant,
    G: TVariant,
> TVariant for (A, B, C, D, E, F, G) {
    open spec fn tag() -> Shape {
        let rest = Shape::End;
        let rest = Shape::Pair(Box::new(G::tag()), Box::new(rest));
        let rest = Shape::Pair(Box::new(F::tag()), Box::new(rest));
        let rest = Shape::Pair(Box::new(E::tag()), Box::new(rest));
        let rest = Shape::Pair(Box::new(D::tag()), Box::new(rest));
        let rest = Shape::Pair(Box::new(C::tag()), Box::new(rest));
        let rest = Shape::Pair(Box::new(B::tag()), Box::new(rest));
        Shape::Pair(Box::new(A::tag()), Box::new(rest))
    }

    open spec fn content(&self) -> Content {
        let rest = Content::End;
        let rest = Content::Pair(Box::new(self.6.content()), Box::new(rest));
        let rest = Content::Pair(Box::new(self.5.content()), Box::new(rest));
        let rest = Content::Pair(Box::new(self.4.content()), Box::new(rest));
        let rest = Content::Pair(Box::new(self.3.content()), Box::new(rest));
        let rest = Content::Pair(Box::new(self.2.content()), Box::new(rest));
        let rest = Content::Pair(Box::new(self.1.content()), Box::new(rest));
        Content::Pair(Box::new(self.0.content()), Box::new(rest))
    }

    open spec fn alike(&self, other: &Self) -> bool {
        &&& self.0.alike(&other.0)
        &&& self.1.alike(&other.1)
        &&& self.2.alike(&other.2)
        &&& self.3.alike(&other.3)
        &&& self.4.alike(&other.4)
        &&& self.5.alike(&other.5)
        &&& self.6.alike(&other.6)
    }

    proof fn content_conforms(&self) {
        let content7 = Content::End;
        let shape7 = Shape::End;
        assert(conforms(content7, shape7));
        self.6.content_conforms();
        let content6 = Content::Pair(Box::new(self.6.content()), Box::new(content7));
        let shape6 = Shape::Pair(Box::new(G::tag()), Box::new(shape7));
        assert(conforms(content6, shape6));
        self.5.content_conforms();
        let content5 = Content::Pair(Box::new(self.5.content()), Box::new(content6));
        let shape5 = Shape::Pair(Box::new(F::tag()), Box::new(shape6));
        assert(conforms(content5, shape5));
        self.4.content_conforms();
        let content4 = Content::Pair(Box::new(self.4.content()), Box::new(content5));
        let shape4 = Shape::Pair(Box::new(E::tag()), Box::new(shape5));
        assert(conforms(content4, shape4));
        self.3.content_conforms();
        let content3 = Content::Pair(Box::new(self.3.content()), Box::new(content4));
        let shape3 = Shape::Pair(Box::new(D::tag()), Box::new(shape4));
        assert(conforms(content3, shape3));
        self.2.content_conforms();
        let content2 = Content::Pair(Box::new(self.2.content()), Box::new(content3));
        let shape2 = Shape::Pair(Box::new(C::tag()), Box::new(shape3));
        assert(conforms(content2, shape2));
        self.1.content_conforms();
        let content1 = Content::Pair(Box::new(self.1.content()), Box::new(content2));
        let shape1 = Shape::Pair(Box::new(B::tag()), Box::new(shape2));
        assert(conforms(content1, shape1));
        self.0.content_conforms();
        let content0 = Content::Pair(Box::new(self.0.content()), Box::new(content1));
        let shape0 = Shape::Pair(Box::new(A::tag()), Box::new(shape1));
        assert(conforms(content0, shape0));
    }

    proof fn contents_tell(&self, other: &Self) {
        let left7 = Content::End;
        let right7 = Content::End;
        let left6 = Content::Pair(Box::new(self.6.content()), Box::new(left7));
        let right6 = Content::Pair(Box::new(other.6.content()), Box::new(right7));
        let left5 = Content::Pair(Box::new(self.5.content()), Box::new(left6));
        let right5 = Content::Pair(Box::new(other.5.content()), Box::new(right6));
        let left4 = Content::Pair(Box::new(self.4.content()), Box::new(left5));
        let right4 = Content::Pair(Box::new(other.4.content()), Box::new(right5));
        let left3 = Content::Pair(Box::new(self.3.content()), Box::new(left4));
        let right3 = Content::Pair(Box::new(other.3.content()), Box::new(right4));
        let left2 = Content::Pair(Box::new(self.2.content()), Box::new(left3));
        let right2 = Content::Pair(Box::new(other.2.content()), Box::new(right3));
        let left1 = Content::Pair(Box::new(self.1.content()), Box::new(left2));
        let right1 = Content::Pair(Box::new(other.1.content()), Box::new(right2));
        let left0 = Content::Pair(Box::new(self.0.content()), Box::new(left1));
        let right0 = Content::Pair(Box::new(other.0.content()), Box::new(right1));
        assert(left0 == right0);
        assert(left1 == right1);
        self.0.contents_tell(&other.0);
        assert(left2 == right2);
        self.1.contents_tell(&other.1);
        assert(left3 == right3);
        self.2.contents_tell(&other.2);
        assert(left4 == right4);
        self.3.contents_tell(&other.3);
        assert(left5 == right5);
        self.4.contents_tell(&other.4);
        assert(left6 == right6);
        self.5.contents_tell(&other.5);
        assert(left7 == right7);
        self.6.contents_tell(&other.6);
    }

    fn shape() -> (shape: Shape) {
        let rest = Shape::End;
        let rest = Shape::Pair(Box::new(G::shape()), Box::new(rest));
        let rest = Shape::Pair(Box::new(F::shape()), Box::new(rest));
        let rest = Shape::Pair(Box::new(E::shape()), Box::new(rest));
        let rest = Shape::Pair(Box::new(D::shape()), Box::new(rest));
        let rest = Shape::Pair(Box::new(C::shape()), Box::new(rest));
        let rest = Shape::Pair(Box::new(B::shape()), Box::new(rest));
        Shape::Pair(Box::new(A::shape()), Box::new(rest))
    }

    fn into_payload(self) -> (payload: Payload) {
        let (a0, b0, c0, d0, e0, f0, g0) = self;
        let payload7 = Payload::End;
        assert(payload7@ == Content::End);
        let payload6 = Payload::Pair(Box::new(g0.into_payload()), Box::new(payload7));
        assert(payload6@ == Content::Pair(Box::new(self.6.content()), Box::new(payload7@)));
        let payload5 = Payload::Pair(Box::new(f0.into_payload()), Box::new(payload6));
        assert(payload5@ == Content::Pair(Box::new(self.5.content()), Box::new(payload6@)));
        let payload4 = Payload::Pair(Box::new(e0.into_payload()), Box::new(payload5));
        assert(payload4@ == Content::Pair(Box::new(self.4.content()), Box::new(payload5@)));
        let payload3 = Payload::Pair(Box::new(d0.into_payload()), Box::new(payload4));
        assert(payload3@ == Content::Pair(Box::new(self.3.content()), Box::new(payload4@)));
        let payload2 = Payload::Pair(Box::new(c0.into_payload()), Box::new(payload3));
        assert(payload2@ == Content::Pair(Box::new(self.2.content()), Box::new(payload3@)));
        let payload1 = Payload::Pair(Box::new(b0.into_payload()), Box::new(payload2));
        assert(payload1@ == Content::Pair(Box::new(self.1.content()), Box::new(payload2@)));
        let payload0 = Payload::Pair(Box::new(a0.into_payload()), Box::new(payload1));
        assert(payload0@ == Content::Pair(Box::new(self.0.content()), Box::new(payload1@)));
        payload0
    }

    fn value(&self) -> (payload: Payload) {
        let payload7 = Payload::End;
        assert(payload7@ == Content::End);
        let payload6 = Payload::Pair(Box::new(self.6.value()), Box::new(payload7));
        assert(payload6@ == Content::Pair(Box::new(self.6.content()), Box::new(payload7@)));
        let payload5 = Payload::Pair(Box::new(self.5.value()), Box::new(payload6));
        assert(payload5@ == Content::Pair(Box::new(self.5.content()), Box::new(payload6@)));
        let payload4 = Payload::Pair(Box::new(self.4.value()), Box::new(payload5));
        assert(payload4@ == Content::Pair(Box::new(self.4.content()), Box::new(payload5@)));
        let payload3 = Payload::Pair(Box::new(self.3.value()), Box::new(payload4));
        assert(payload3@ == Content::Pair(Box::new(self.3.content()), Box::new(payload4@)));
        let payload2 = Payload::Pair(Box::new(self.2.value()), Box::new(payload3));
        assert(payload2@ == Content::Pair(Box::new(self.2.content()), Box::new(payload3@)));
        let payload1 = Payload::Pair(Box::new(self.1.value()), Box::new(payload2));
        assert(payload1@ == Content::Pair(Box::new(self.1.content()), Box::new(payload2@)));
        let payload0 = Payload::Pair(Box::new(self.0.value()), Box::new(payload1));
        assert(payload0@ == Content::Pair(Box::new(self.0.content()), Box::new(payload1@)));
        payload0
    }

    fn from_payload(payload: &Payload) -> (value: Self) {
        let ghost shape7 = Shape::End;
        let ghost shape6 = Shape::Pair(Box::new(G::tag()), Box::new(shape7));
        let ghost shape5 = Shape::Pair(Box::new(F::tag()), Box::new(shape6));
        let ghost shape4 = Shape::Pair(Box::new(E::tag()), Box::new(shape5));
        let ghost shape3 = Shape::Pair(Box::new(D::tag()), Box::new(shape4));
        let ghost shape2 = Shape::Pair(Box::new(C::tag()), Box::new(shape3));
        let ghost shape1 = Shape::Pair(Box::new(B::tag()), Box::new(shape2));
        let ghost shape0 = Shape::Pair(Box::new(A::tag()), Box::new(shape1));
        let rest0 = payload;
        assert(conforms(rest0@, shape0));
        let (a0, rest1) = rest0.split();
        let a0 = A::from_payload(a0);
        assert(conforms(rest1@, shape1));
        let (b0, rest2) = rest1.split();
        let b0 = B::from_payload(b0);
        assert(conforms(rest2@, shape2));
        let (c0, rest3) = rest2.split();
        let c0 = C::from_payload(c0);
        assert(conforms(rest3@, shape3));
        let (d0, rest4) = rest3.split();
        let d0 = D::from_payload(d0);
        assert(conforms(rest4@, shape4));
        let (e0, rest5) = rest4.split();
        let e0 = E::from_payload(e0);
        assert(conforms(rest5@, shape5));
        let (f0, rest6) = rest5.split();
        let f0 = F::from_payload(f0);
        assert(conforms(rest6@, shape6));
        let (g0, rest7) = rest6.split();
        let g0 = G::from_payload(g0);
        assert(conforms(rest7@, shape7));
        assert(rest7@ == Content::End);
        (a0, b0, c0, d0, e0, f0, g0)
    }

    fn into_variant(self) -> (variant: Variant) {
        proof {
            self.content_conforms();
        }
        Variant::from_parts(self.into_payload(), Self::shape())
    }
}

impl<
    A: TVariant,
    B: TVariant,
    C: TVariant,
    D: TVariant,
    E: TVariant,
    F: TVariant,
    G: TVariant,
    H: TVariant,
> TVariant for (A, B, C, D, E, F, G, H) {
    open spec fn tag() -> Shape {
        let rest = Shape::End;
        let rest = Shape::Pair(Box::new(H::tag()), Box::new(rest));
        let rest = Shape::Pair(Box::new(G::tag()), Box::new(rest));
        let rest = Shape::Pair(Box::new(F::tag()), Box::new(rest));
        let rest = Shape::Pair(Box::new(E::tag()), Box::new(rest));
        let rest = Shape::Pair(Box::new(D::tag()), Box::new(rest));
        let rest = Shape::Pair(Box::new(C::tag()), Box::new(rest));
        let rest = Shape::Pair(Box::new(B::tag()), Box::new(rest));
        Shape::Pair(Box::new(A::tag()), Box::new(rest))
    }

    open spec fn content(&self) -> Content {
        let rest = Content::End;
        let rest = Content::Pair(Box::new(self.7.content()), Box::new(rest));
        let rest = Content::Pair(Box::new(self.6.content()), Box::new(rest));
        let rest = Content::Pair(Box::new(self.5.content()), Box::new(rest));
        let rest = Content::Pair(Box::new(self.4.content()), Box::new(rest));
        let rest = Content::Pair(Box::new(self.3.content()), Box::new(rest));
        let rest = Content::Pair(Box::new(self.2.content()), Box::new(rest));
        let rest = Content::Pair(Box::new(self.1.content()), Box::new(rest));
        Content::Pair(Box::new(self.0.content()), Box::new(rest))
    }

    open spec fn alike(&self, other: &Self) -> bool {
        &&& self.0.alike(&other.0)
        &&& self.1.alike(&other.1)
        &&& self.2.alike(&other.2)
        &&& self.3.alike(&other.3)
        &&& self.4.alike(&other.4)
        &&& self.5.alike(&other.5)
        &&& self.6.alike(&other.6)
        &&& self.7.alike(&other.7)
    }

    proof fn content_conforms(&self) {
        let content8 = Content::End;
        let shape8 = Shape::End;
        assert(conforms(content8, shape8));
        self.7.content_conforms();
        let content7 = Content::Pair(Box::new(self.7.content()), Box::new(content8));
        let shape7 = Shape::Pair(Box::new(H::tag()), Box::new(shape8));
        assert(conforms(content7, shape7));
        self.6.content_conforms();
        let content6 = Content::Pair(Box::new(self.6.content()), Box::new(content7));
        let shape6 = Shape::Pair(Box::new(G::tag()), Box::new(shape7));
        assert(conforms(content6, shape6));
        self.5.content_conforms();
        let content5 = Content::Pair(Box::new(self.5.content()), Box::new(content6));
        let shape5 = Shape::Pair(Box::new(F::tag()), Box::new(shape6));
        assert(conforms(content5, shape5));
        self.4.content_conforms();
        let content4 = Content::Pair(Box::new(self.4.content()), Box::new(content5));
        let shape4 = Shape::Pair(Box::new(E::tag()), Box::new(shape5));
        assert(conforms(content4, shape4));
        self.3.content_conforms();
        let content3 = Content::Pair(Box::new(self.3.content()), Box::new(content4));
        let shape3 = Shape::Pair(Box::new(D::tag()), Box::new(shape4));
        assert(conforms(content3, shape3));
        self.2.content_conforms();
        let content2 = Content::Pair(Box::new(self.2.content()), Box::new(content3));
        let shape2 = Shape::Pair(Box::new(C::tag()), Box::new(shape3));
        assert(conforms(content2, shape2));
        self.1.content_conforms();
        let content1 = Content::Pair(Box::new(self.1.content()), Box::new(content2));
        let shape1 = Shape::Pair(Box::new(B::tag()), Box::new(shape2));
        assert(conforms(content1, shape1));
        self.0.content_conforms();
        let content0 = Content::Pair(Box::new(self.0.content()), Box::new(content1));
        let shape0 = Shape::Pair(Box::new(A::tag()), Box::new(shape1));
        assert(conforms(content0, shape0));
    }

    proof fn contents_tell(&self, other: &Self) {
        let left8 = Content::End;
        let right8 = Content::End;
        let left7 = Content::Pair(Box::new(self.7.content()), Box::new(left8));
        let right7 = Content::Pair(Box::new(other.7.content()), Box::new(right8));
        let left6 = Content::Pair(Box::new(self.6.content()), Box::new(left7));
        let right6 = Content::Pair(Box::new(other.6.content()), Box::new(right7));
        let left5 = Content::Pair(Box::new(self.5.content()), Box::new(left6));
        let right5 = Content::Pair(Box::new(other.5.content()), Box::new(right6));
        let left4 = Content::Pair(Box::new(self.4.content()), Box::new(left5));
        let right4 = Content::Pair(Box::new(other.4.content()), Box::new(right5));
        let left3 = Content::Pair(Box::new(self.3.content()), Box::new(left4));
        let right3 = Content::Pair(Box::new(other.3.content()), Box::new(right4));
        let left2 = Content::Pair(Box::new(self.2.content()), Box::new(left3));
        let right2 = Content::Pair(Box::new(other.2.content()), Box::new(right3));
        let left1 = Content::Pair(Box::new(self.1.content()), Box::new(left2));
        let right1 = Content::Pair(Box::new(other.1.content()), Box::new(right2));
        let left0 = Content::Pair(Box::new(self.0.content()), Box::new(left1));
        let right0 = Content::Pair(Box::new(other.0.content()), Box::new(right1));
        assert(left0 == right0);
        assert(left1 == right1);
        self.0.contents_tell(&other.0);
        assert(left2 == right2);
        self.1.contents_tell(&other.1);
        assert(left3 == right3);
        self.2.contents_tell(&other.2);
        assert(left4 == right4);
        self.3.contents_tell(&other.3);
        assert(left5 == right5);
        self.4.contents_tell(&other.4);
        assert(left6 == right6);
        self.5.contents_tell(&other.5);
        assert(left7 == right7);
        self.6.contents_tell(&other.6);
        assert(left8 == right8);
        self.7.contents_tell(&other.7);
    }

    fn shape() -> (shape: Shape) {
        let rest = Shape::End;
        let rest = Shape::Pair(Box::new(H::shape()), Box::new(rest));
        let rest = Shape::Pair(Box::new(G::shape()), Box::new(rest));
        let rest = Shape::Pair(Box::new(F::shape()), Box::new(rest));
        let rest = Shape::Pair(Box::new(E::shape()), Box::new(rest));
        let rest = Shape::Pair(Box::new(D::shape()), Box::new(rest));
        let rest = Shape::Pair(Box::new(C::shape()), Box::new(rest));
        let rest = Shape::Pair(Box::new(B::shape()), Box::new(rest));
        Shape::Pair(Box::new(A::shape()), Box::new(rest))
    }

    fn into_payload(self) -> (payload: Payload) {
        let (a0, b0, c0, d0, e0, f0, g0, h0) = self;
        let payload8 = Payload::End;
        assert(payload8@ == Content::End);
        let payload7 = Payload::Pair(Box::new(h0.into_payload()), Box::new(payload8));
        assert(payload7@ == Content::Pair(Box::new(self.7.content()), Box::new(payload8@)));
        let payload6 = Payload::Pair(Box::new(g0.into_payload()), Box::new(payload7));
        assert(payload6@ == Content::Pair(Box::new(self.6.content()), Box::new(payload7@)));
        let payload5 = Payload::Pair(Box::new(f0.into_payload()), Box::new(payload6));
        assert(payload5@ == Content::Pair(Box::new(self.5.content()), Box::new(payload6@)));
        let payload4 = Payload::Pair(Box::new(e0.into_payload()), Box::new(payload5));
        assert(payload4@ == Content::Pair(Box::new(self.4.content()), Box::new(payload5@)));
        let payload3 = Payload::Pair(Box::new(d0.into_payload()), Box::new(payload4));
        assert(payload3@ == Content::Pair(Box::new(self.3.content()), Box::new(payload4@)));
        let payload2 = Payload::Pair(Box::new(c0.into_payload()), Box::new(payload3));
        assert(payload2@ == Content::Pair(Box::new(self.2.content()), Box::new(payload3@)));
        let payload1 = Payload::Pair(Box::new(b0.into_payload()), Box::new(payload2));
        assert(payload1@ == Content::Pair(Box::new(self.1.content()), Box::new(payload2@)));
        let payload0 = Payload::Pair(Box::new(a0.into_payload()), Box::new(payload1));
        assert(payload0@ == Content::Pair(Box::new(self.0.content()), Box::new(payload1@)));
        payload0
    }

    fn value(&self) -> (payload: Payload) {
        let payload8 = Payload::End;
        assert(payload8@ == Content::End);
        let payload7 = Payload::Pair(Box::new(self.7.value()), Box::new(payload8));
        assert(payload7@ == Content::Pair(Box::new(self.7.content()), Box::new(payload8@)));
        let payload6 = Payload::Pair(Box::new(self.6.value()), Box::new(payload7));
        assert(payload6@ == Content::Pair(Box::new(self.6.content()), Box::new(payload7@)));
        let payload5 = Payload::Pair(Box::new(self.5.value()), Box::new(payload6));
        assert(payload5@ == Content::Pair(Box::new(self.5.content()), Box::new(payload6@)));
        let payload4 = Payload::Pair(Box::new(self.4.value()), Box::new(payload5));
        assert(payload4@ == Content::Pair(Box::new(self.4.content()), Box::new(payload5@)));
        let payload3 = Payload::Pair(Box::new(self.3.value()), Box::new(payload4));
        assert(payload3@ == Content::Pair(Box::new(self.3.content()), Box::new(payload4@)));
        let payload2 = Payload::Pair(Box::new(self.2.value()), Box::new(payload3));
        assert(payload2@ == Content::Pair(Box::new(self.2.content()), Box::new(payload3@)));
        let payload1 = Payload::Pair(Box::new(self.1.value()), Box::new(payload2));
        assert(payload1@ == Content::Pair(Box::new(self.1.content()), Box::new(payload2@)));
        let payload0 = Payload::Pair(Box::new(self.0.value()), Box::new(payload1));
        assert(payload0@ == Content::Pair(Box::new(self.0.content()), Box::new(payload1@)));
        payload0
    }

    fn from_payload(payload: &Payload) -> (value: Self) {
        let ghost shape8 = Shape::End;
        let ghost shape7 = Shape::Pair(Box::new(H::tag()), Box::new(shape8));
        let ghost shape6 = Shape::Pair(Box::new(G::tag()), Box::new(shape7));
        let ghost shape5 = Shape::Pair(Box::new(F::tag()), Box::new(shape6));
        let ghost shape4 = Shape::Pair(Box::new(E::tag()), Box::new(shape5));
        let ghost shape3 = Shape::Pair(Box::new(D::tag()), Box::new(shape4));
        let ghost shape2 = Shape::Pair(Box::new(C::tag()), Box::new(shape3));
        let ghost shape1 = Shape::Pair(Box::new(B::tag()), Box::new(shape2));
        let ghost shape0 = Shape::Pair(Box::new(A::tag()), Box::new(shape1));
        let rest0 = payload;
        assert(conforms(rest0@, shape0));
        let (a0, rest1) = rest0.split();
        let a0 = A::from_payload(a0);
        assert(conforms(rest1@, shape1));
        let (b0, rest2) = rest1.split();
        let b0 = B::from_payload(b0);
        assert(conforms(rest2@, shape2));
        let (c0, rest3) = rest2.split();
        let c0 = C::from_payload(c0);
        assert(conforms(rest3@, shape3));
        let (d0, rest4) = rest3.split();
        let d0 = D::from_payload(d0);
        assert(conforms(rest4@, shape4));
        let (e0, rest5) = rest4.split();
        let e0 = E::from_payload(e0);
        assert(conforms(rest5@, shape5));
        let (f0, rest6) = rest5.split();
        let f0 = F::from_payload(f0);
        assert(conforms(rest6@, shape6));
        let (g0, rest7) = rest6.split();
        let g0 = G::from_payload(g0);
        assert(conforms(rest7@, shape7));
        let (h0, rest8) = rest7.split();
        let h0 = H::from_payload(h0);
        assert(conforms(rest8@, shape8));
        assert(rest8@ == Content::End);
        (a0, b0, c0, d0, e0, f0, g0, h0)
    }

    fn into_variant(self) -> (variant: Variant) {
        proof {
            self.content_conforms();
        }
        Variant::from_parts(self.into_payload(), Self::shape())
    }
}

impl<
    A: TVariant,
    B: TVariant,
    C: TVariant,
    D: TVariant,
    E: TVariant,
    F: TVariant,
    G: TVariant,
    H: TVariant,
    I: TVariant,
> TVariant for (A, B, C, D, E, F, G, H, I) {
    open spec fn tag() -> Shape {
        let rest = Shape::End;
        let rest = Shape::Pair(Box::new(I::tag()), Box::new(rest));
        let rest = Shape::Pair(Box::new(H::tag()), Box::new(rest));
        let rest = Shape::Pair(Box::new(G::tag()), Box::new(rest));
        let rest = Shape::Pair(Box::new(F::tag()), Box::new(rest));
        let rest = Shape::Pair(Box::new(E::tag()), Box::new(rest));
        let rest = Shape::Pair(Box::new(D::tag()), Box::new(rest));
        let rest = Shape::Pair(Box::new(C::tag()), Box::new(rest));
        let rest = Shape::Pair(Box::new(B::tag()), Box::new(rest));
        Shape::Pair(Box::new(A::tag()), Box::new(rest))
    }

    open spec fn content(&self) -> Content {
        let rest = Content::End;
        let rest = Content::Pair(Box::new(self.8.content()), Box::new(rest));
        let rest = Content::Pair(Box::new(self.7.content()), Box::new(rest));
        let rest = Content::Pair(Box::new(self.6.content()), Box::new(rest));
        let rest = Content::Pair(Box::new(self.5.content()), Box::new(rest));
        let rest = Content::Pair(Box::new(self.4.content()), Box::new(rest));
        let rest = Content::Pair(Box::new(self.3.content()), Box::new(rest));
        let rest = Content::Pair(Box::new(self.2.content()), Box::new(rest));
        let rest = Content::Pair(Box::new(self.1.content()), Box::new(rest));
        Content::Pair(Box::new(self.0.content()), Box::new(rest))
    }

    open spec fn alike(&self, other: &Self) -> bool {
        &&& self.0.alike(&other.0)
        &&& self.1.alike(&other.1)
        &&& self.2.alike(&other.2)
        &&& self.3.alike(&other.3)
        &&& self.4.alike(&other.4)
        &&& self.5.alike(&other.5)
        &&& self.6.alike(&other.6)
        &&& self.7.alike(&other.7)
        &&& self.8.alike(&other.8)
    }

    proof fn content_conforms(&self) {
        let content9 = Content::End;
        let shape9 = Shape::End;
        assert(conforms(content9, shape9));
        self.8.content_conforms();
        let content8 = Content::Pair(Box::new(self.8.content()), Box::new(content9));
        let shape8 = Shape::Pair(Box::new(I::tag()), Box::new(shape9));
        assert(conforms(content8, shape8));
        self.7.content_conforms();
        let content7 = Content::Pair(Box::new(self.7.content()), Box::new(content8));
        let shape7 = Shape::Pair(Box::new(H::tag()), Box::new(shape8));
        assert(conforms(content7, shape7));
        self.6.content_conforms();
        let content6 = Content::Pair(Box::new(self.6.content()), Box::new(content7));
        let shape6 = Shape::Pair(Box::new(G::tag()), Box::new(shape7));
        assert(conforms(content6, shape6));
        self.5.content_conforms();
        let content5 = Content::Pair(Box::new(self.5.content()), Box::new(content6));
        let shape5 = Shape::Pair(Box::new(F::tag()), Box::new(shape6));
        assert(conforms(content5, shape5));
        self.4.content_conforms();
        let content4 = Content::Pair(Box::new(self.4.content()), Box::new(content5));
        let shape4 = Shape::Pair(Box::new(E::tag()), Box::new(shape5));
        assert(conforms(content4, shape4));
        self.3.content_conforms();
        let content3 = Content::Pair(Box::new(self.3.content()), Box::new(content4));
        let shape3 = Shape::Pair(Box::new(D::tag()), Box::new(shape4));
        assert(conforms(content3, shape3));
        self.2.content_conforms();
        let content2 = Content::Pair(Box::new(self.2.content()), Box::new(content3));
        let shape2 = Shape::Pair(Box::new(C::tag()), Box::new(shape3));
        assert(conforms(content2, shape2));
        self.1.content_conforms();
        let content1 = Content::Pair(Box::new(self.1.content()), Box::new(content2));
        let shape1 = Shape::Pair(Box::new(B::tag()), Box::new(shape2));
        assert(conforms(content1, shape1));
        self.0.content_conforms();
        let content0 = Content::Pair(Box::new(self.0.content()), Box::new(content1));
        let shape0 = Shape::Pair(Box::new(A::tag()), Box::new(shape1));
        assert(conforms(content0, shape0));
    }

    proof fn contents_tell(&self, other: &Self) {
        let left9 = Content::End;
        let right9 = Content::End;
        let left8 = Content::Pair(Box::new(self.8.content()), Box::new(left9));
        let right8 = Content::Pair(Box::new(other.8.content()), Box::new(right9));
        let left7 = Content::Pair(Box::new(self.7.content()), Box::new(left8));
        let right7 = Content::Pair(Box::new(other.7.content()), Box::new(right8));
        let left6 = Content::Pair(Box::new(self.6.content()), Box::new(left7));
        let right6 = Content::Pair(Box::new(other.6.content()), Box::new(right7));
        let left5 = Content::Pair(Box::new(self.5.content()), Box::new(left6));
        let right5 = Content::Pair(Box::new(other.5.content()), Box::new(right6));
        let left4 = Content::Pair(Box::new(self.4.content()), Box::new(left5));
        let right4 = Content::Pair(Box::new(other.4.content()), Box::new(right5));
        let left3 = Content::Pair(Box::new(self.3.content()), Box::new(left4));
        let right3 = Content::Pair(Box::new(other.3.content()), Box::new(right4));
        let left2 = Content::Pair(Box::new(self.2.content()), Box::new(left3));
        let right2 = Content::Pair(Box::new(other.2.content()), Box::new(right3));
        let left1 = Content::Pair(Box::new(self.1.content()), Box::new(left2));
        let right1 = Content::Pair(Box::new(other.1.content()), Box::new(right2));
        let left0 = Content::Pair(Box::new(self.0.content()), Box::new(left1));
        let right0 = Content::Pair(Box::new(other.0.content()), Box::new(right1));
        assert(left0 == right0);
        assert(left1 == right1);
        self.0.contents_tell(&other.0);
        assert(left2 == right2);
        self.1.contents_tell(&other.1);
        assert(left3 == right3);
        self.2.contents_tell(&other.2);
        assert(left4 == right4);
        self.3.contents_tell(&other.3);
        assert(left5 == right5);
        self.4.contents_tell(&other.4);
        assert(left6 == right6);
        self.5.contents_tell(&other.5);
        assert(left7 == right7);
        self.6.contents_tell(&other.6);
        assert(left8 == right8);
        self.7.contents_tell(&other.7);
        assert(left9 == right9);
        self.8.contents_tell(&other.8);
    }

    fn shape() -> (shape: Shape) {
        let rest = Shape::End;
        let rest = Shape::Pair(Box::new(I::shape()), Box::new(rest));
        let rest = Shape::Pair(Box::new(H::shape()), Box::new(rest));
        let rest = Shape::Pair(Box::new(G::shape()), Box::new(rest));
        let rest = Shape::Pair(Box::new(F::shape()), Box::new(rest));
        let rest = Shape::Pair(Box::new(E::shape()), Box::new(rest));
        let rest = Shape::Pair(Box::new(D::shape()), Box::new(rest));
        let rest = Shape::Pair(Box::new(C::shape()), Box::new(rest));
        let rest = Shape::Pair(Box::new(B::shape()), Box::new(rest));
        Shape::Pair(Box::new(A::shape()), Box::new(rest))
    }

    fn into_payload(self) -> (payload: Payload) {
        let (a0, b0, c0, d0, e0, f0, g0, h0, i0) = self;
        let payload9 = Payload::End;
        assert(payload9@ == Content::End);
        let payload8 = Payload::Pair(Box::new(i0.into_payload()), Box::new(payload9));
        assert(payload8@ == Content::Pair(Box::new(self.8.content()), Box::new(payload9@)));
        let payload7 = Payload::Pair(Box::new(h0.into_payload()), Box::new(payload8));
        assert(payload7@ == Content::Pair(Box::new(self.7.content()), Box::new(payload8@)));
        let payload6 = Payload::Pair(Box::new(g0.into_payload()), Box::new(payload7));
        assert(payload6@ == Content::Pair(Box::new(self.6.content()), Box::new(payload7@)));
        let payload5 = Payload::Pair(Box::new(f0.into_payload()), Box::new(payload6));
        assert(payload5@ == Content::Pair(Box::new(self.5.content()), Box::new(payload6@)));
        let payload4 = Payload::Pair(Box::new(e0.into_payload()), Box::new(payload5));
        assert(payload4@ == Content::Pair(Box::new(self.4.content()), Box::new(payload5@)));
        let payload3 = Payload::Pair(Box::new(d0.into_payload()), Box::new(payload4));
        assert(payload3@ == Content::Pair(Box::new(self.3.content()), Box::new(payload4@)));
        let payload2 = Payload::Pair(Box::new(c0.into_payload()), Box::new(payload3));
        assert(payload2@ == Content::Pair(Box::new(self.2.content()), Box::new(payload3@)));
        let payload1 = Payload::Pair(Box::new(b0.into_payload()), Box::new(payload2));
        assert(payload1@ == Content::Pair(Box::new(self.1.content()), Box::new(payload2@)));
        let payload0 = Payload::Pair(Box::new(a0.into_payload()), Box::new(payload1));
        assert(payload0@ == Content::Pair(Box::new(self.0.content()), Box::new(payload1@)));
        payload0
    }

    fn value(&self) -> (payload: Payload) {
        let payload9 = Payload::End;
        assert(payload9@ == Content::End);
        let payload8 = Payload::Pair(Box::new(self.8.value()), Box::new(payload9));
        assert(payload8@ == Content::Pair(Box::new(self.8.content()), Box::new(payload9@)));
        let payload7 = Payload::Pair(Box::new(self.7.value()), Box::new(payload8));
        assert(payload7@ == Content::Pair(Box::new(self.7.content()), Box::new(payload8@)));
        let payload6 = Payload::Pair(Box::new(self.6.value()), Box::new(payload7));
        assert(payload6@ == Content::Pair(Box::new(self.6.content()), Box::new(payload7@)));
        let payload5 = Payload::Pair(Box::new(self.5.value()), Box::new(payload6));
        assert(payload5@ == Content::Pair(Box::new(self.5.content()), Box::new(payload6@)));
        let payload4 = Payload::Pair(Box::new(self.4.value()), Box::new(payload5));
        assert(payload4@ == Content::Pair(Box::new(self.4.content()), Box::new(payload5@)));
        let payload3 = Payload::Pair(Box::new(self.3.value()), Box::new(payload4));
        assert(payload3@ == Content::Pair(Box::new(self.3.content()), Box::new(payload4@)));
        let payload2 = Payload::Pair(Box::new(self.2.value()), Box::new(payload3));
        assert(payload2@ == Content::Pair(Box::new(self.2.content()), Box::new(payload3@)));
        let payload1 = Payload::Pair(Box::new(self.1.value()), Box::new(payload2));
        assert(payload1@ == Content::Pair(Box::new(self.1.content()), Box::new(payload2@)));
        let payload0 = Payload::Pair(Box::new(self.0.value()), Box::new(payload1));
        assert(payload0@ == Content::Pair(Box::new(self.0.content()), Box::new(payload1@)));
        payload0
    }

    fn from_payload(payload: &Payload) -> (value: Self) {
        let ghost shape9 = Shape::End;
        let ghost shape8 = Shape::Pair(Box::new(I::tag()), Box::new(shape9));
        let ghost shape7 = Shape::Pair(Box::new(H::tag()), Box::new(shape8));
        let ghost shape6 = Shape::Pair(Box::new(G::tag()), Box::new(shape7));
        let ghost shape5 = Shape::Pair(Box::new(F::tag()), Box::new(shape6));
        let ghost shape4 = Shape::Pair(Box::new(E::tag()), Box::new(shape5));
        let ghost shape3 = Shape::Pair(Box::new(D::tag()), Box::new(shape4));
        let ghost shape2 = Shape::Pair(Box::new(C::tag()), Box::new(shape3));
        let ghost shape1 = Shape::Pair(Box::new(B::tag()), Box::new(shape2));
        let ghost shape0 = Shape::Pair(Box::new(A::tag()), Box::new(shape1));
        let rest0 = payload;
        assert(conforms(rest0@, shape0));
        let (a0, rest1) = rest0.split();
        let a0 = A::from_payload(a0);
        assert(conforms(rest1@, shape1));
        let (b0, rest2) = rest1.split();
        let b0 = B::from_payload(b0);
        assert(conforms(rest2@, shape2));
        let (c0, rest3) = rest2.split();
        let c0 = C::from_payload(c0);
        assert(conforms(rest3@, shape3));
        let (d0, rest4) = rest3.split();
        let d0 = D::from_payload(d0);
        assert(conforms(rest4@, shape4));
        let (e0, rest5) = rest4.split();
        let e0 = E::from_payload(e0);
        assert(conforms(rest5@, shape5));
        let (f0, rest6) = rest5.split();
        let f0 = F::from_payload(f0);
        assert(conforms(rest6@, shape6));
        let (g0, rest7) = rest6.split();
        let g0 = G::from_payload(g0);
        assert(conforms(rest7@, shape7));
        let (h0, rest8) = rest7.split();
        let h0 = H::from_payload(h0);
        assert(conforms(rest8@, shape8));
        let (i0, rest9) = rest8.split();
        let i0 = I::from_payload(i0);
        assert(conforms(rest9@, shape9));
        assert(rest9@ == Content::End);
        (a0, b0, c0, d0, e0, f0, g0, h0, i0)
    }

    fn into_variant(self) -> (variant: Variant) {
        proof {
            self.content_conforms();
        }
        Variant::from_parts(self.into_payload(), Self::shape())
    }
}

impl<
    A: TVariant,
    B: TVariant,
    C: TVariant,
    D: TVariant,
    E: TVariant,
    F: TVariant,
    G: TVariant,
    H: TVariant,
    I: TVariant,
    J: TVariant,
> TVariant for (A, B, C, D, E, F, G, H, I, J) {
    open spec fn tag() -> Shape {
        let rest = Shape::End;
        let rest = Shape::Pair(Box::new(J::tag()), Box::new(rest));
        let rest = Shape::Pair(Box::new(I::tag()), Box::new(rest));
        let rest = Shape::Pair(Box::new(H::tag()), Box::new(rest));
        let rest = Shape::Pair(Box::new(G::tag()), Box::new(rest));
        let rest = Shape::Pair(Box::new(F::tag()), Box::new(rest));
        let rest = Shape::Pair(Box::new(E::tag()), Box::new(rest));
        let rest = Shape::Pair(Box::new(D::tag()), Box::new(rest));
        let rest = Shape::Pair(Box::new(C::tag()), Box::new(rest));
        let rest = Shape::Pair(Box::new(B::tag()), Box::new(rest));
        Shape::Pair(Box::new(A::tag()), Box::new(rest))
    }

    open spec fn content(&self) -> Content {
        let rest = Content::End;
        let rest = Content::Pair(Box::new(self.9.content()), Box::new(rest));
        let rest = Content::Pair(Box::new(self.8.content()), Box::new(rest));
        let rest = Content::Pair(Box::new(self.7.content()), Box::new(rest));
        let rest = Content::Pair(Box::new(self.6.content()), Box::new(rest));
        let rest = Content::Pair(Box::new(self.5.content()), Box::new(rest));
        let rest = Content::Pair(Box::new(self.4.content()), Box::new(rest));
        let rest = Content::Pair(Box::new(self.3.content()), Box::new(rest));
        let rest = Content::Pair(Box::new(self.2.content()), Box::new(rest));
        let rest = Content::Pair(Box::new(self.1.content()), Box::new(rest));
        Content::Pair(Box::new(self.0.content()), Box::new(rest))
    }

    open spec fn alike(&self, other: &Self) -> bool {
        &&& self.0.alike(&other.0)
        &&& self.1.alike(&other.1)
        &&& self.2.alike(&other.2)
        &&& self.3.alike(&other.3)
        &&& self.4.alike(&other.4)
        &&& self.5.alike(&other.5)
        &&& self.6.alike(&other.6)
        &&& self.7.alike(&other.7)
        &&& self.8.alike(&other.8)
        &&& self.9.alike(&other.9)
    }

    proof fn content_conforms(&self) {
        let content10 = Content::End;
        let shape10 = Shape::End;
        assert(conforms(content10, shape10));
        self.9.content_conforms();
        let content9 = Content::Pair(Box::new(self.9.content()), Box::new(content10));
        let shape9 = Shape::Pair(Box::new(J::tag()), Box::new(shape10));
        assert(conforms(content9, shape9));
        self.8.content_conforms();
        let content8 = Content::Pair(Box::new(self.8.content()), Box::new(content9));
        let shape8 = Shape::Pair(Box::new(I::tag()), Box::new(shape9));
        assert(conforms(content8, shape8));
        self.7.content_conforms();
        let content7 = Content::Pair(Box::new(self.7.content()), Box::new(content8));
        let shape7 = Shape::Pair(Box::new(H::tag()), Box::new(shape8));
        assert(conforms(content7, shape7));
        self.6.content_conforms();
        let content6 = Content::Pair(Box::new(self.6.content()), Box::new(content7));
        let shape6 = Shape::Pair(Box::new(G::tag()), Box::new(shape7));
        assert(conforms(content6, shape6));
        self.5.content_conforms();
        let content5 = Content::Pair(Box::new(self.5.content()), Box::new(content6));
        let shape5 = Shape::Pair(Box::new(F::tag()), Box::new(shape6));
        assert(conforms(content5, shape5));
        self.4.content_conforms();
        let content4 = Content::Pair(Box::new(self.4.content()), Box::new(content5));
        let shape4 = Shape::Pair(Box::new(E::tag()), Box::new(shape5));
        assert(conforms(content4, shape4));
        self.3.content_conforms();
        let content3 = Content::Pair(Box::new(self.3.content()), Box::new(content4));
        let shape3 = Shape::Pair(Box::new(D::tag()), Box::new(shape4));
        assert(conforms(content3, shape3));
        self.2.content_conforms();
        let content2 = Content::Pair(Box::new(self.2.content()), Box::new(content3));
        let shape2 = Shape::Pair(Box::new(C::tag()), Box::new(shape3));
        assert(conforms(content2, shape2));
        self.1.content_conforms();
        let content1 = Content::Pair(Box::new(self.1.content()), Box::new(content2));
        let shape1 = Shape::Pair(Box::new(B::tag()), Box::new(shape2));
        assert(conforms(content1, shape1));
        self.0.content_conforms();
        let content0 = Content::Pair(Box::new(self.0.content()), Box::new(content1));
        let shape0 = Shape::Pair(Box::new(A::tag()), Box::new(shape1));
        assert(conforms(content0, shape0));
    }

    proof fn contents_tell(&self, other: &Self) {
        let left10 = Content::End;
        let right10 = Content::End;
        let left9 = Content::Pair(Box::new(self.9.content()), Box::new(left10));
        let right9 = Content::Pair(Box::new(other.9.content()), Box::new(right10));
        let left8 = Content::Pair(Box::new(self.8.content()), Box::new(left9));
        let right8 = Content::Pair(Box::new(other.8.content()), Box::new(right9));
        let left7 = Content::Pair(Box::new(self.7.content()), Box::new(left8));
        let right7 = Content::Pair(Box::new(other.7.content()), Box::new(right8));
        let left6 = Content::Pair(Box::new(self.6.content()), Box::new(left7));
        let right6 = Content::Pair(Box::new(other.6.content()), Box::new(right7));
        let left5 = Content::Pair(Box::new(self.5.content()), Box::new(left6));
        let right5 = Content::Pair(Box::new(other.5.content()), Box::new(right6));
        let left4 = Content::Pair(Box::new(self.4.content()), Box::new(left5));
        let right4 = Content::Pair(Box::new(other.4.content()), Box::new(right5));
        let left3 = Content::Pair(Box::new(self.3.content()), Box::new(left4));
        let right3 = Content::Pair(Box::new(other.3.content()), Box::new(right4));
        let left2 = Content::Pair(Box::new(self.2.content()), Box::new(left3));
        let right2 = Content::Pair(Box::new(other.2.content()), Box::new(right3));
        let left1 = Content::Pair(Box::new(self.1.content()), Box::new(left2));
        let right1 = Content::Pair(Box::new(other.1.content()), Box::new(right2));
        let left0 = Content::Pair(Box::new(self.0.content()), Box::new(left1));
        let right0 = Content::Pair(Box::new(other.0.content()), Box::new(right1));
        assert(left0 == right0);
        assert(left1 == right1);
        self.0.contents_tell(&other.0);
        assert(left2 == right2);
        self.1.contents_tell(&other.1);
        assert(left3 == right3);
        self.2.contents_tell(&other.2);
        assert(left4 == right4);
        self.3.contents_tell(&other.3);
        assert(left5 == right5);
        self.4.contents_tell(&other.4);
        assert(left6 == right6);
        self.5.contents_tell(&other.5);
        assert(left7 == right7);
        self.6.contents_tell(&other.6);
        assert(left8 == right8);
        self.7.contents_tell(&other.7);
        assert(left9 == right9);
        self.8.contents_tell(&other.8);
        assert(left10 == right10);
        self.9.contents_tell(&other.9);
    }

    fn shape() -> (shape: Shape) {
        let rest = Shape::End;
        let rest = Shape::Pair(Box::new(J::shape()), Box::new(rest));
        let rest = Shape::Pair(Box::new(I::shape()), Box::new(rest));
        let rest = Shape::Pair(Box::new(H::shape()), Box::new(rest));
        let rest = Shape::Pair(Box::new(G::shape()), Box::new(rest));
        let rest = Shape::Pair(Box::new(F::shape()), Box::new(rest));
        let rest = Shape::Pair(Box::new(E::shape()), Box::new(rest));
        let rest = Shape::Pair(Box::new(D::shape()), Box::new(rest));
        let rest = Shape::Pair(Box::new(C::shape()), Box::new(rest));
        let rest = Shape::Pair(Box::new(B::shape()), Box::new(rest));
        Shape::Pair(Box::new(A::shape()), Box::new(rest))
    }

    fn into_payload(self) -> (payload: Payload) {
        let (a0, b0, c0, d0, e0, f0, g0, h0, i0, j0) = self;
        let payload10 = Payload::End;
        assert(payload10@ == Content::End);
        let payload9 = Payload::Pair(Box::new(j0.into_payload()), Box::new(payload10));
        assert(payload9@ == Content::Pair(Box::new(self.9.content()), Box::new(payload10@)));
        let payload8 = Payload::Pair(Box::new(i0.into_payload()), Box::new(payload9));
        assert(payload8@ == Content::Pair(Box::new(self.8.content()), Box::new(payload9@)));
        let payload7 = Payload::Pair(Box::new(h0.into_payload()), Box::new(payload8));
        assert(payload7@ == Content::Pair(Box::new(self.7.content()), Box::new(payload8@)));
        let payload6 = Payload::Pair(Box::new(g0.into_payload()), Box::new(payload7));
        assert(payload6@ == Content::Pair(Box::new(self.6.content()), Box::new(payload7@)));
        let payload5 = Payload::Pair(Box::new(f0.into_payload()), Box::new(payload6));
        assert(payload5@ == Content::Pair(Box::new(self.5.content()), Box::new(payload6@)));
        let payload4 = Payload::Pair(Box::new(e0.into_payload()), Box::new(payload5));
        assert(payload4@ == Content::Pair(Box::new(self.4.content()), Box::new(payload5@)));
        let payload3 = Payload::Pair(Box::new(d0.into_payload()), Box::new(payload4));
        assert(payload3@ == Content::Pair(Box::new(self.3.content()), Box::new(payload4@)));
        let payload2 = Payload::Pair(Box::new(c0.into_payload()), Box::new(payload3));
        assert(payload2@ == Content::Pair(Box::new(self.2.content()), Box::new(payload3@)));
        let payload1 = Payload::Pair(Box::new(b0.into_payload()), Box::new(payload2));
        assert(payload1@ == Content::Pair(Box::new(self.1.content()), Box::new(payload2@)));
        let payload0 = Payload::Pair(Box::new(a0.into_payload()), Box::new(payload1));
        assert(payload0@ == Content::Pair(Box::new(self.0.content()), Box::new(payload1@)));
        payload0
    }

    fn value(&self) -> (payload: Payload) {
        let payload10 = Payload::End;
        assert(payload10@ == Content::End);
        let payload9 = Payload::Pair(Box::new(self.9.value()), Box::new(payload10));
        assert(payload9@ == Content::Pair(Box::new(self.9.content()), Box::new(payload10@)));
        let payload8 = Payload::Pair(Box::new(self.8.value()), Box::new(payload9));
        assert(payload8@ == Content::Pair(Box::new(self.8.content()), Box::new(payload9@)));
        let payload7 = Payload::Pair(Box::new(self.7.value()), Box::new(payload8));
        assert(payload7@ == Content::Pair(Box::new(self.7.content()), Box::new(payload8@)));
        let payload6 = Payload::Pair(Box::new(self.6.value()), Box::new(payload7));
        assert(payload6@ == Content::Pair(Box::new(self.6.content()), Box::new(payload7@)));
        let payload5 = Payload::Pair(Box::new(self.5.value()), Box::new(payload6));
        assert(payload5@ == Content::Pair(Box::new(self.5.content()), Box::new(payload6@)));
        let payload4 = Payload::Pair(Box::new(self.4.value()), Box::new(payload5));
        assert(payload4@ == Content::Pair(Box::new(self.4.content()), Box::new(payload5@)));
        let payload3 = Payload::Pair(Box::new(self.3.value()), Box::new(payload4));
        assert(payload3@ == Content::Pair(Box::new(self.3.content()), Box::new(payload4@)));
        let payload2 = Payload::Pair(Box::new(self.2.value()), Box::new(payload3));
        assert(payload2@ == Content::Pair(Box::new(self.2.content()), Box::new(payload3@)));
        let payload1 = Payload::Pair(Box::new(self.1.value()), Box::new(payload2));
        assert(payload1@ == Content::Pair(Box::new(self.1.content()), Box::new(payload2@)));
        let payload0 = Payload::Pair(Box::new(self.0.value()), Box::new(payload1));
        assert(payload0@ == Content::Pair(Box::new(self.0.content()), Box::new(payload1@)));
        payload0
    }

    fn from_payload(payload: &Payload) -> (value: Self) {
        let ghost shape10 = Shape::End;
        let ghost shape9 = Shape::Pair(Box::new(J::tag()), Box::new(shape10));
        let ghost shape8 = Shape::Pair(Box::new(I::tag()), Box::new(shape9));
        let ghost shape7 = Shape::Pair(Box::new(H::tag()), Box::new(shape8));
        let ghost shape6 = Shape::Pair(Box::new(G::tag()), Box::new(shape7));
        let ghost shape5 = Shape::Pair(Box::new(F::tag()), Box::new(shape6));
        let ghost shape4 = Shape::Pair(Box::new(E::tag()), Box::new(shape5));
        let ghost shape3 = Shape::Pair(Box::new(D::tag()), Box::new(shape4));
        let ghost shape2 = Shape::Pair(Box::new(C::tag()), Box::new(shape3));
        let ghost shape1 = Shape::Pair(Box::new(B::tag()), Box::new(shape2));
        let ghost shape0 = Shape::Pair(Box::new(A::tag()), Box::new(shape1));
        let rest0 = payload;
        assert(conforms(rest0@, shape0));
        let (a0, rest1) = rest0.split();
        let a0 = A::from_payload(a0);
        assert(conforms(rest1@, shape1));
        let (b0, rest2) = rest1.split();
        let b0 = B::from_payload(b0);
        assert(conforms(rest2@, shape2));
        let (c0, rest3) = rest2.split();
        let c0 = C::from_payload(c0);
        assert(conforms(rest3@, shape3));
        let (d0, rest4) = rest3.split();
        let d0 = D::from_payload(d0);
        assert(conforms(rest4@, shape4));
        let (e0, rest5) = rest4.split();
        let e0 = E::from_payload(e0);
        assert(conforms(rest5@, shape5));
        let (f0, rest6) = rest5.split();
        let f0 = F::from_payload(f0);
        assert(conforms(rest6@, shape6));
        let (g0, rest7) = rest6.split();
        let g0 = G::from_payload(g0);
        assert(conforms(rest7@, shape7));
        let (h0, rest8) = rest7.split();
        let h0 = H::from_payload(h0);
        assert(conforms(rest8@, shape8));
        let (i0, rest9) = rest8.split();
        let i0 = I::from_payload(i0);
        assert(conforms(rest9@, shape9));
        let (j0, rest10) = rest9.split();
        let j0 = J::from_payload(j0);
        assert(conforms(rest10@, shape10));
        assert(rest10@ == Content::End);
        (a0, b0, c0, d0, e0, f0, g0, h0, i0, j0)
    }

    fn into_variant(self) -> (variant: Variant) {
        proof {
            self.content_conforms();
        }
        Variant::from_parts(self.into_payload(), Self::shape())
    }
}

impl<
    A: TVariant,
    B: TVariant,
    C: TVariant,
    D: TVariant,
    E: TVariant,
    F: TVariant,
    G: TVariant,
    H: TVariant,
    I: TVariant,
    J: TVariant,
    K: TVariant,
> TVariant for (A, B, C, D, E, F, G, H, I, J, K) {
    open spec fn tag() -> Shape {
        let rest = Shape::End;
        let rest = Shape::Pair(Box::new(K::tag()), Box::new(rest));
        let rest = Shape::Pair(Box::new(J::tag()), Box::new(rest));
        let rest = Shape::Pair(Box::new(I::tag()), Box::new(rest));
        let rest = Shape::Pair(Box::new(H::tag()), Box::new(rest));
        let rest = Shape::Pair(Box::new(G::tag()), Box::new(rest));
        let rest = Shape::Pair(Box::new(F::tag()), Box::new(rest));
        let rest = Shape::Pair(Box::new(E::tag()), Box::new(rest));
        let rest = Shape::Pair(Box::new(D::tag()), Box::new(rest));
        let rest = Shape::Pair(Box::new(C::tag()), Box::new(rest));
        let rest = Shape::Pair(Box::new(B::tag()), Box::new(rest));
        Shape::Pair(Box::new(A::tag()), Box::new(rest))
    }

    open spec fn content(&self) -> Content {
        let rest = Content::End;
        let rest = Content::Pair(Box::new(self.10.content()), Box::new(rest));
        let rest = Content::Pair(Box::new(self.9.content()), Box::new(rest));
        let rest = Content::Pair(Box::new(self.8.content()), Box::new(rest));
        let rest = Content::Pair(Box::new(self.7.content()), Box::new(rest));
        let rest = Content::Pair(Box::new(self.6.content()), Box::new(rest));
        let rest = Content::Pair(Box::new(self.5.content()), Box::new(rest));
        let rest = Content::Pair(Box::new(self.4.content()), Box::new(rest));
        let rest = Content::Pair(Box::new(self.3.content()), Box::new(rest));
        let rest = Content::Pair(Box::new(self.2.content()), Box::new(rest));
        let rest = Content::Pair(Box::new(self.1.content()), Box::new(rest));
        Content::Pair(Box::new(self.0.content()), Box::new(rest))
    }

    open spec fn alike(&self, other: &Self) -> bool {
        &&& self.0.alike(&other.0)
        &&& self.1.alike(&other.1)
        &&& self.2.alike(&other.2)
        &&& self.3.alike(&other.3)
        &&& self.4.alike(&other.4)
        &&& self.5.alike(&other.5)
        &&& self.6.alike(&other.6)
        &&& self.7.alike(&other.7)
        &&& self.8.alike(&other.8)
        &&& self.9.alike(&other.9)
        &&& self.10.alike(&other.10)
    }

    proof fn content_conforms(&self) {
        let content11 = Content::End;
        let shape11 = Shape::End;
        assert(conforms(content11, shape11));
        self.10.content_conforms();
        let content10 = Content::Pair(Box::new(self.10.content()), Box::new(content11));
        let shape10 = Shape::Pair(Box::new(K::tag()), Box::new(shape11));
        assert(conforms(content10, shape10));
        self.9.content_conforms();
        let content9 = Content::Pair(Box::new(self.9.content()), Box::new(content10));
        let shape9 = Shape::Pair(Box::new(J::tag()), Box::new(shape10));
        assert(conforms(content9, shape9));
        self.8.content_conforms();
        let content8 = Content::Pair(Box::new(self.8.content()), Box::new(content9));
        let shape8 = Shape::Pair(Box::new(I::tag()), Box::new(shape9));
        assert(conforms(content8, shape8));
        self.7.content_conforms();
        let content7 = Content::Pair(Box::new(self.7.content()), Box::new(content8));
        let shape7 = Shape::Pair(Box::new(H::tag()), Box::new(shape8));
        assert(conforms(content7, shape7));
        self.6.content_conforms();
        let content6 = Content::Pair(Box::new(self.6.content()), Box::new(content7));
        let shape6 = Shape::Pair(Box::new(G::tag()), Box::new(shape7));
        assert(conforms(content6, shape6));
        self.5.content_conforms();
        let content5 = Content::Pair(Box::new(self.5.content()), Box::new(content6));
        let shape5 = Shape::Pair(Box::new(F::tag()), Box::new(shape6));
        assert(conforms(content5, shape5));
        self.4.content_conforms();
        let content4 = Content::Pair(Box::new(self.4.content()), Box::new(content5));
        let shape4 = Shape::Pair(Box::new(E::tag()), Box::new(shape5));
        assert(conforms(content4, shape4));
        self.3.content_conforms();
        let content3 = Content::Pair(Box::new(self.3.content()), Box::new(content4));
        let shape3 = Shape::Pair(Box::new(D::tag()), Box::new(shape4));
        assert(conforms(content3, shape3));
        self.2.content_conforms();
        let content2 = Content::Pair(Box::new(self.2.content()), Box::new(content3));
        let shape2 = Shape::Pair(Box::new(C::tag()), Box::new(shape3));
        assert(conforms(content2, shape2));
        self.1.content_conforms();
        let content1 = Content::Pair(Box::new(self.1.content()), Box::new(content2));
        let shape1 = Shape::Pair(Box::new(B::tag()), Box::new(shape2));
        assert(conforms(content1, shape1));
        self.0.content_conforms();
        let content0 = Content::Pair(Box::new(self.0.content()), Box::new(content1));
        let shape0 = Shape::Pair(Box::new(A::tag()), Box::new(shape1));
        assert(conforms(content0, shape0));
    }

    proof fn contents_tell(&self, other: &Self) {
        let left11 = Content::End;
        let right11 = Content::End;
        let left10 = Content::Pair(Box::new(self.10.content()), Box::new(left11));
        let right10 = Content::Pair(Box::new(other.10.content()), Box::new(right11));
        let left9 = Content::Pair(Box::new(self.9.content()), Box::new(left10));
        let right9 = Content::Pair(Box::new(other.9.content()), Box::new(right10));
        let left8 = Content::Pair(Box::new(self.8.content()), Box::new(left9));
        let right8 = Content::Pair(Box::new(other.8.content()), Box::new(right9));
        let left7 = Content::Pair(Box::new(self.7.content()), Box::new(left8));
        let right7 = Content::Pair(Box::new(other.7.content()), Box::new(right8));
        let left6 = Content::Pair(Box::new(self.6.content()), Box::new(left7));
        let right6 = Content::Pair(Box::new(other.6.content()), Box::new(right7));
        let left5 = Content::Pair(Box::new(self.5.content()), Box::new(left6));
        let right5 = Content::Pair(Box::new(other.5.content()), Box::new(right6));
        let left4 = Content::Pair(Box::new(self.4.content()), Box::new(left5));
        let right4 = Content::Pair(Box::new(other.4.content()), Box::new(right5));
        let left3 = Content::Pair(Box::new(self.3.content()), Box::new(left4));
        let right3 = Content::Pair(Box::new(other.3.content()), Box::new(right4));
        let left2 = Content::Pair(Box::new(self.2.content()), Box::new(left3));
        let right2 = Content::Pair(Box::new(other.2.content()), Box::new(right3));
        let left1 = Content::Pair(Box::new(self.1.content()), Box::new(left2));
        let right1 = Content::Pair(Box::new(other.1.content()), Box::new(right2));
        let left0 = Content::Pair(Box::new(self.0.content()), Box::new(left1));
        let right0 = Content::Pair(Box::new(other.0.content()), Box::new(right1));
        assert(left0 == right0);
        assert(left1 == right1);
        self.0.contents_tell(&other.0);
        assert(left2 == right2);
        self.1.contents_tell(&other.1);
        assert(left3 == right3);
        self.2.contents_tell(&other.2);
        assert(left4 == right4);
        self.3.contents_tell(&other.3);
        assert(left5 == right5);
        self.4.contents_tell(&other.4);
        assert(left6 == right6);
        self.5.contents_tell(&other.5);
        assert(left7 == right7);
        self.6.contents_tell(&other.6);
        assert(left8 == right8);
        self.7.contents_tell(&other.7);
        assert(left9 == right9);
        self.8.contents_tell(&other.8);
        assert(left10 == right10);
        self.9.contents_tell(&other.9);
        assert(left11 == right11);
        self.10.contents_tell(&other.10);
    }

    fn shape() -> (shape: Shape) {
        let rest = Shape::End;
        let rest = Shape::Pair(Box::new(K::shape()), Box::new(rest));
        let rest = Shape::Pair(Box::new(J::shape()), Box::new(rest));
        let rest = Shape::Pair(Box::new(I::shape()), Box::new(rest));
        let rest = Shape::Pair(Box::new(H::shape()), Box::new(rest));
        let rest = Shape::Pair(Box::new(G::shape()), Box::new(rest));
        let rest = Shape::Pair(Box::new(F::shape()), Box::new(rest));
        let rest = Shape::Pair(Box::new(E::shape()), Box::new(rest));
        let rest = Shape::Pair(Box::new(D::shape()), Box::new(rest));
        let rest = Shape::Pair(Box::new(C::shape()), Box::new(rest));
        let rest = Shape::Pair(Box::new(B::shape()), Box::new(rest));
        Shape::Pair(Box::new(A::shape()), Box::new(rest))
    }

    fn into_payload(self) -> (payload: Payload) {
        let (a0, b0, c0, d0, e0, f0, g0, h0, i0, j0, k0) = self;
        let payload11 = Payload::End;
        assert(payload11@ == Content::End);
        let payload10 = Payload::Pair(Box::new(k0.into_payload()), Box::new(payload11));
        assert(payload10@ == Content::Pair(Box::new(self.10.content()), Box::new(payload11@)));
        let payload9 = Payload::Pair(Box::new(j0.into_payload()), Box::new(payload10));
        assert(payload9@ == Content::Pair(Box::new(self.9.content()), Box::new(payload10@)));
        let payload8 = Payload::Pair(Box::new(i0.into_payload()), Box::new(payload9));
        assert(payload8@ == Content::Pair(Box::new(self.8.content()), Box::new(payload9@)));
        let payload7 = Payload::Pair(Box::new(h0.into_payload()), Box::new(payload8));
        assert(payload7@ == Content::Pair(Box::new(self.7.content()), Box::new(payload8@)));
        let payload6 = Payload::Pair(Box::new(g0.into_payload()), Box::new(payload7));
        assert(payload6@ == Content::Pair(Box::new(self.6.content()), Box::new(payload7@)));
        let payload5 = Payload::Pair(Box::new(f0.into_payload()), Box::new(payload6));
        assert(payload5@ == Content::Pair(Box::new(self.5.content()), Box::new(payload6@)));
        let payload4 = Payload::Pair(Box::new(e0.into_payload()), Box::new(payload5));
        assert(payload4@ == Content::Pair(Box::new(self.4.content()), Box::new(payload5@)));
        let payload3 = Payload::Pair(Box::new(d0.into_payload()), Box::new(payload4));
        assert(payload3@ == Content::Pair(Box::new(self.3.content()), Box::new(payload4@)));
        let payload2 = Payload::Pair(Box::new(c0.into_payload()), Box::new(payload3));
        assert(payload2@ == Content::Pair(Box::new(self.2.content()), Box::new(payload3@)));
        let payload1 = Payload::Pair(Box::new(b0.into_payload()), Box::new(payload2));
        assert(payload1@ == Content::Pair(Box::new(self.1.content()), Box::new(payload2@)));
        let payload0 = Payload::Pair(Box::new(a0.into_payload()), Box::new(payload1));
        assert(payload0@ == Content::Pair(Box::new(self.0.content()), Box::new(payload1@)));
        payload0
    }

    fn value(&self) -> (payload: Payload) {
        let payload11 = Payload::End;
        assert(payload11@ == Content::End);
        let payload10 = Payload::Pair(Box::new(self.10.value()), Box::new(payload11));
        assert(payload10@ == Content::Pair(Box::new(self.10.content()), Box::new(payload11@)));
        let payload9 = Payload::Pair(Box::new(self.9.value()), Box::new(payload10));
        assert(payload9@ == Content::Pair(Box::new(self.9.content()), Box::new(payload10@)));
        let payload8 = Payload::Pair(Box::new(self.8.value()), Box::new(payload9));
        assert(payload8@ == Content::Pair(Box::new(self.8.content()), Box::new(payload9@)));
        let payload7 = Payload::Pair(Box::new(self.7.value()), Box::new(payload8));
        assert(payload7@ == Content::Pair(Box::new(self.7.content()), Box::new(payload8@)));
        let payload6 = Payload::Pair(Box::new(self.6.value()), Box::new(payload7));
        assert(payload6@ == Content::Pair(Box::new(self.6.content()), Box::new(payload7@)));
        let payload5 = Payload::Pair(Box::new(self.5.value()), Box::new(payload6));
        assert(payload5@ == Content::Pair(Box::new(self.5.content()), Box::new(payload6@)));
        let payload4 = Payload::Pair(Box::new(self.4.value()), Box::new(payload5));
        assert(payload4@ == Content::Pair(Box::new(self.4.content()), Box::new(payload5@)));
        let payload3 = Payload::Pair(Box::new(self.3.value()), Box::new(payload4));
        assert(payload3@ == Content::Pair(Box::new(self.3.content()), Box::new(payload4@)));
        let payload2 = Payload::Pair(Box::new(self.2.value()), Box::new(payload3));
        assert(payload2@ == Content::Pair(Box::new(self.2.content()), Box::new(payload3@)));
        let payload1 = Payload::Pair(Box::new(self.1.value()), Box::new(payload2));
        assert(payload1@ == Content::Pair(Box::new(self.1.content()), Box::new(payload2@)));
        let payload0 = Payload::Pair(Box::new(self.0.value()), Box::new(payload1));
        assert(payload0@ == Content::Pair(Box::new(self.0.content()), Box::new(payload1@)));
        payload0
    }

    fn from_payload(payload: &Payload) -> (value: Self) {
        let ghost shape11 = Shape::End;
        let ghost shape10 = Shape::Pair(Box::new(K::tag()), Box::new(shape11));
        let ghost shape9 = Shape::Pair(Box::new(J::tag()), Box::new(shape10));
        let ghost shape8 = Shape::Pair(Box::new(I::tag()), Box::new(shape9));
        let ghost shape7 = Shape::Pair(Box::new(H::tag()), Box::new(shape8));
        let ghost shape6 = Shape::Pair(Box::new(G::tag()), Box::new(shape7));
        let ghost shape5 = Shape::Pair(Box::new(F::tag()), Box::new(shape6));
        let ghost shape4 = Shape::Pair(Box::new(E::tag()), Box::new(shape5));
        let ghost shape3 = Shape::Pair(Box::new(D::tag()), Box::new(shape4));
        let ghost shape2 = Shape::Pair(Box::new(C::tag()), Box::new(shape3));
        let ghost shape1 = Shape::Pair(Box::new(B::tag()), Box::new(shape2));
        let ghost shape0 = Shape::Pair(Box::new(A::tag()), Box::new(shape1));
        let rest0 = payload;
        assert(conforms(rest0@, shape0));
        let (a0, rest1) = rest0.split();
        let a0 = A::from_payload(a0);
        assert(conforms(rest1@, shape1));
        let (b0, rest2) = rest1.split();
        let b0 = B::from_payload(b0);
        assert(conforms(rest2@, shape2));
        let (c0, rest3) = rest2.split();
        let c0 = C::from_payload(c0);
        assert(conforms(rest3@, shape3));
        let (d0, rest4) = rest3.split();
        let d0 = D::from_payload(d0);
        assert(conforms(rest4@, shape4));
        let (e0, rest5) = rest4.split();
        let e0 = E::from_payload(e0);
        assert(conforms(rest5@, shape5));
        let (f0, rest6) = rest5.split();
        let f0 = F::from_payload(f0);
        assert(conforms(rest6@, shape6));
        let (g0, rest7) = rest6.split();
        let g0 = G::from_payload(g0);
        assert(conforms(rest7@, shape7));
        let (h0, rest8) = rest7.split();
        let h0 = H::from_payload(h0);
        assert(conforms(rest8@, shape8));
        let (i0, rest9) = rest8.split();
        let i0 = I::from_payload(i0);
        assert(conforms(rest9@, shape9));
        let (j0, rest10) = rest9.split();
        let j0 = J::from_payload(j0);
        assert(conforms(rest10@, shape10));
        let (k0, rest11) = rest10.split();
        let k0 = K::from_payload(k0);
        assert(conforms(rest11@, shape11));
        assert(rest11@ == Content::End);
        (a0, b0, c0, d0, e0, f0, g0, h0, i0, j0, k0)
    }

    fn into_variant(self) -> (variant: Variant) {
        proof {
            self.content_conforms();
        }
        Variant::from_parts(self.into_payload(), Self::shape())
    }
}

impl<
    A: TVariant,
    B: TVariant,
    C: TVariant,
    D: TVariant,
    E: TVariant,
    F: TVariant,
    G: TVariant,
    H: TVariant,
    I: TVariant,
    J: TVariant,
    K: TVariant,
    L: TVariant,
> TVariant for (A, B, C, D, E, F, G, H, I, J, K, L) {
    open spec fn tag() -> Shape {
        let rest = Shape::End;
        let rest = Shape::Pair(Box::new(L::tag()), Box::new(rest));
        let rest = Shape::Pair(Box::new(K::tag()), Box::new(rest));
        let rest = Shape::Pair(Box::new(J::tag()), Box::new(rest));
        let rest = Shape::Pair(Box::new(I::tag()), Box::new(rest));
        let rest = Shape::Pair(Box::new(H::tag()), Box::new(rest));
        let rest = Shape::Pair(Box::new(G::tag()), Box::new(rest));
        let rest = Shape::Pair(Box::new(F::tag()), Box::new(rest));
        let rest = Shape::Pair(Box::new(E::tag()), Box::new(rest));
        let rest = Shape::Pair(Box::new(D::tag()), Box::new(rest));
        let rest = Shape::Pair(Box::new(C::tag()), Box::new(rest));
        let rest = Shape::Pair(Box::new(B::tag()), Box::new(rest));
        Shape::Pair(Box::new(A::tag()), Box::new(rest))
    }

    open spec fn content(&self) -> Content {
        let rest = Content::End;
        let rest = Content::Pair(Box::new(self.11.content()), Box::new(rest));
        let rest = Content::Pair(Box::new(self.10.content()), Box::new(rest));
        let rest = Content::Pair(Box::new(self.9.content()), Box::new(rest));
        let rest = Content::Pair(Box::new(self.8.content()), Box::new(rest));
        let rest = Content::Pair(Box::new(self.7.content()), Box::new(rest));
        let rest = Content::Pair(Box::new(self.6.content()), Box::new(rest));
        let rest = Content::Pair(Box::new(self.5.content()), Box::new(rest));
        let rest = Content::Pair(Box::new(self.4.content()), Box::new(rest));
        let rest = Content::Pair(Box::new(self.3.content()), Box::new(rest));
        let rest = Content::Pair(Box::new(self.2.content()), Box::new(rest));
        let rest = Content::Pair(Box::new(self.1.content()), Box::new(rest));
        Content::Pair(Box::new(self.0.content()), Box::new(rest))
    }

    open spec fn alike(&self, other: &Self) -> bool {
        &&& self.0.alike(&other.0)
        &&& self.1.alike(&other.1)
        &&& self.2.alike(&other.2)
        &&& self.3.alike(&other.3)
        &&& self.4.alike(&other.4)
        &&& self.5.alike(&other.5)
        &&& self.6.alike(&other.6)
        &&& self.7.alike(&other.7)
        &&& self.8.alike(&other.8)
        &&& self.9.alike(&other.9)
        &&& self.10.alike(&other.10)
        &&& self.11.alike(&other.11)
    }

    proof fn content_conforms(&self) {
        let content12 = Content::End;
        let shape12 = Shape::End;
        assert(conforms(content12, shape12));
        self.11.content_conforms();
        let content11 = Content::Pair(Box::new(self.11.content()), Box::new(content12));
        let shape11 = Shape::Pair(Box::new(L::tag()), Box::new(shape12));
        assert(conforms(content11, shape11));
        self.10.content_conforms();
        let content10 = Content::Pair(Box::new(self.10.content()), Box::new(content11));
        let shape10 = Shape::Pair(Box::new(K::tag()), Box::new(shape11));
        assert(conforms(content10, shape10));
        self.9.content_conforms();
        let content9 = Content::Pair(Box::new(self.9.content()), Box::new(content10));
        let shape9 = Shape::Pair(Box::new(J::tag()), Box::new(shape10));
        assert(conforms(content9, shape9));
        self.8.content_conforms();
        let content8 = Content::Pair(Box::new(self.8.content()), Box::new(content9));
        let shape8 = Shape::Pair(Box::new(I::tag()), Box::new(shape9));
        assert(conforms(content8, shape8));
        self.7.content_conforms();
        let content7 = Content::Pair(Box::new(self.7.content()), Box::new(content8));
        let shape7 = Shape::Pair(Box::new(H::tag()), Box::new(shape8));
        assert(conforms(content7, shape7));
        self.6.content_conforms();
        let content6 = Content::Pair(Box::new(self.6.content()), Box::new(content7));
        let shape6 = Shape::Pair(Box::new(G::tag()), Box::new(shape7));
        assert(conforms(content6, shape6));
        self.5.content_conforms();
        let content5 = Content::Pair(Box::new(self.5.content()), Box::new(content6));
        let shape5 = Shape::Pair(Box::new(F::tag()), Box::new(shape6));
        assert(conforms(content5, shape5));
        self.4.content_conforms();
        let content4 = Content::Pair(Box::new(self.4.content()), Box::new(content5));
        let shape4 = Shape::Pair(Box::new(E::tag()), Box::new(shape5));
        assert(conforms(content4, shape4));
        self.3.content_conforms();
        let content3 = Content::Pair(Box::new(self.3.content()), Box::new(content4));
        let shape3 = Shape::Pair(Box::new(D::tag()), Box::new(shape4));
        assert(conforms(content3, shape3));
        self.2.content_conforms();
        let content2 = Content::Pair(Box::new(self.2.content()), Box::new(content3));
        let shape2 = Shape::Pair(Box::new(C::tag()), Box::new(shape3));
        assert(conforms(content2, shape2));
        self.1.content_conforms();
        let content1 = Content::Pair(Box::new(self.1.content()), Box::new(content2));
        let shape1 = Shape::Pair(Box::new(B::tag()), Box::new(shape2));
        assert(conforms(content1, shape1));
        self.0.content_conforms();
        let content0 = Content::Pair(Box::new(self.0.content()), Box::new(content1));
        let shape0 = Shape::Pair(Box::new(A::tag()), Box::new(shape1));
        assert(conforms(content0, shape0));
    }

    proof fn contents_tell(&self, other: &Self) {
        let left12 = Content::End;
        let right12 = Content::End;
        let left11 = Content::Pair(Box::new(self.11.content()), Box::new(left12));
        let right11 = Content::Pair(Box::new(other.11.content()), Box::new(right12));
        let left10 = Content::Pair(Box::new(self.10.content()), Box::new(left11));
        let right10 = Content::Pair(Box::new(other.10.content()), Box::new(right11));
        let left9 = Content::Pair(Box::new(self.9.content()), Box::new(left10));
        let right9 = Content::Pair(Box::new(other.9.content()), Box::new(right10));
        let left8 = Content::Pair(Box::new(self.8.content()), Box::new(left9));
        let right8 = Content::Pair(Box::new(other.8.content()), Box::new(right9));
        let left7 = Content::Pair(Box::new(self.7.content()), Box::new(left8));
        let right7 = Content::Pair(Box::new(other.7.content()), Box::new(right8));
        let left6 = Content::Pair(Box::new(self.6.content()), Box::new(left7));
        let right6 = Content::Pair(Box::new(other.6.content()), Box::new(right7));
        let left5 = Content::Pair(Box::new(self.5.content()), Box::new(left6));
        let right5 = Content::Pair(Box::new(other.5.content()), Box::new(right6));
        let left4 = Content::Pair(Box::new(self.4.content()), Box::new(left5));
        let right4 = Content::Pair(Box::new(other.4.content()), Box::new(right5));
        let left3 = Content::Pair(Box::new(self.3.content()), Box::new(left4));
        let right3 = Content::Pair(Box::new(other.3.content()), Box::new(right4));
        let left2 = Content::Pair(Box::new(self.2.content()), Box::new(left3));
        let right2 = Content::Pair(Box::new(other.2.content()), Box::new(right3));
        let left1 = Content::Pair(Box::new(self.1.content()), Box::new(left2));
        let right1 = Content::Pair(Box::new(other.1.content()), Box::new(right2));
        let left0 = Content::Pair(Box::new(self.0.content()), Box::new(left1));
        let right0 = Content::Pair(Box::new(other.0.content()), Box::new(right1));
        assert(left0 == right0);
        assert(left1 == right1);
        self.0.contents_tell(&other.0);
        assert(left2 == right2);
        self.1.contents_tell(&other.1);
        assert(left3 == right3);
        self.2.contents_tell(&other.2);
        assert(left4 == right4);
        self.3.contents_tell(&other.3);
        assert(left5 == right5);
        self.4.contents_tell(&other.4);
        assert(left6 == right6);
        self.5.contents_tell(&other.5);
        assert(left7 == right7);
        self.6.contents_tell(&other.6);
        assert(left8 == right8);
        self.7.contents_tell(&other.7);
        assert(left9 == right9);
        self.8.contents_tell(&other.8);
        assert(left10 == right10);
        self.9.contents_tell(&other.9);
        assert(left11 == right11);
        self.10.contents_tell(&other.10);
        assert(left12 == right12);
        self.11.contents_tell(&other.11);
    }

    fn shape() -> (shape: Shape) {
        let rest = Shape::End;
        let rest = Shape::Pair(Box::new(L::shape()), Box::new(rest));
        let rest = Shape::Pair(Box::new(K::shape()), Box::new(rest));
        let rest = Shape::Pair(Box::new(J::shape()), Box::new(rest));
        let rest = Shape::Pair(Box::new(I::shape()), Box::new(rest));
        let rest = Shape::Pair(Box::new(H::shape()), Box::new(rest));
        let rest = Shape::Pair(Box::new(G::shape()), Box::new(rest));
        let rest = Shape::Pair(Box::new(F::shape()), Box::new(rest));
        let rest = Shape::Pair(Box::new(E::shape()), Box::new(rest));
        let rest = Shape::Pair(Box::new(D::shape()), Box::new(rest));
        let rest = Shape::Pair(Box::new(C::shape()), Box::new(rest));
        let rest = Shape::Pair(Box::new(B::shape()), Box::new(rest));
        Shape::Pair(Box::new(A::shape()), Box::new(rest))
    }

    fn into_payload(self) -> (payload: Payload) {
        let (a0, b0, c0, d0, e0, f0, g0, h0, i0, j0, k0, l0) = self;
        let payload12 = Payload::End;
        assert(payload12@ == Content::End);
        let payload11 = Payload::Pair(Box::new(l0.into_payload()), Box::new(payload12));
        assert(payload11@ == Content::Pair(Box::new(self.11.content()), Box::new(payload12@)));
        let payload10 = Payload::Pair(Box::new(k0.into_payload()), Box::new(payload11));
        assert(payload10@ == Content::Pair(Box::new(self.10.content()), Box::new(payload11@)));
        let payload9 = Payload::Pair(Box::new(j0.into_payload()), Box::new(payload10));
        assert(payload9@ == Content::Pair(Box::new(self.9.content()), Box::new(payload10@)));
        let payload8 = Payload::Pair(Box::new(i0.into_payload()), Box::new(payload9));
        assert(payload8@ == Content::Pair(Box::new(self.8.content()), Box::new(payload9@)));
        let payload7 = Payload::Pair(Box::new(h0.into_payload()), Box::new(payload8));
        assert(payload7@ == Content::Pair(Box::new(self.7.content()), Box::new(payload8@)));
        let payload6 = Payload::Pair(Box::new(g0.into_payload()), Box::new(payload7));
        assert(payload6@ == Content::Pair(Box::new(self.6.content()), Box::new(payload7@)));
        let payload5 = Payload::Pair(Box::new(f0.into_payload()), Box::new(payload6));
        assert(payload5@ == Content::Pair(Box::new(self.5.content()), Box::new(payload6@)));
        let payload4 = Payload::Pair(Box::new(e0.into_payload()), Box::new(payload5));
        assert(payload4@ == Content::Pair(Box::new(self.4.content()), Box::new(payload5@)));
        let payload3 = Payload::Pair(Box::new(d0.into_payload()), Box::new(payload4));
        assert(payload3@ == Content::Pair(Box::new(self.3.content()), Box::new(payload4@)));
        let payload2 = Payload::Pair(Box::new(c0.into_payload()), Box::new(payload3));
        assert(payload2@ == Content::Pair(Box::new(self.2.content()), Box::new(payload3@)));
        let payload1 = Payload::Pair(Box::new(b0.into_payload()), Box::new(payload2));
        assert(payload1@ == Content::Pair(Box::new(self.1.content()), Box::new(payload2@)));
        let payload0 = Payload::Pair(Box::new(a0.into_payload()), Box::new(payload1));
        assert(payload0@ == Content::Pair(Box::new(self.0.content()), Box::new(payload1@)));
        payload0
    }

    fn value(&self) -> (payload: Payload) {
        let payload12 = Payload::End;
        assert(payload12@ == Content::End);
        let payload11 = Payload::Pair(Box::new(self.11.value()), Box::new(payload12));
        assert(payload11@ == Content::Pair(Box::new(self.11.content()), Box::new(payload12@)));
        let payload10 = Payload::Pair(Box::new(self.10.value()), Box::new(payload11));
        assert(payload10@ == Content::Pair(Box::new(self.10.content()), Box::new(payload11@)));
        let payload9 = Payload::Pair(Box::new(self.9.value()), Box::new(payload10));
        assert(payload9@ == Content::Pair(Box::new(self.9.content()), Box::new(payload10@)));
        let payload8 = Payload::Pair(Box::new(self.8.value()), Box::new(payload9));
        assert(payload8@ == Content::Pair(Box::new(self.8.content()), Box::new(payload9@)));
        let payload7 = Payload::Pair(Box::new(self.7.value()), Box::new(payload8));
        assert(payload7@ == Content::Pair(Box::new(self.7.content()), Box::new(payload8@)));
        let payload6 = Payload::Pair(Box::new(self.6.value()), Box::new(payload7));
        assert(payload6@ == Content::Pair(Box::new(self.6.content()), Box::new(payload7@)));
        let payload5 = Payload::Pair(Box::new(self.5.value()), Box::new(payload6));
        assert(payload5@ == Content::Pair(Box::new(self.5.content()), Box::new(payload6@)));
        let payload4 = Payload::Pair(Box::new(self.4.value()), Box::new(payload5));
        assert(payload4@ == Content::Pair(Box::new(self.4.content()), Box::new(payload5@)));
        let payload3 = Payload::Pair(Box::new(self.3.value()), Box::new(payload4));
        assert(payload3@ == Content::Pair(Box::new(self.3.content()), Box::new(payload4@)));
        let payload2 = Payload::Pair(Box::new(self.2.value()), Box::new(payload3));
        assert(payload2@ == Content::Pair(Box::new(self.2.content()), Box::new(payload3@)));
        let payload1 = Payload::Pair(Box::new(self.1.value()), Box::new(payload2));
        assert(payload1@ == Content::Pair(Box::new(self.1.content()), Box::new(payload2@)));
        let payload0 = Payload::Pair(Box::new(self.0.value()), Box::new(payload1));
        assert(payload0@ == Content::Pair(Box::new(self.0.content()), Box::new(payload1@)));
        payload0
    }

    fn from_payload(payload: &Payload) -> (value: Self) {
        let ghost shape12 = Shape::End;
        let ghost shape11 = Shape::Pair(Box::new(L::tag()), Box::new(shape12));
        let ghost shape10 = Shape::Pair(Box::new(K::tag()), Box::new(shape11));
        let ghost shape9 = Shape::Pair(Box::new(J::tag()), Box::new(shape10));
        let ghost shape8 = Shape::Pair(Box::new(I::tag()), Box::new(shape9));
        let ghost shape7 = Shape::Pair(Box::new(H::tag()), Box::new(shape8));
        let ghost shape6 = Shape::Pair(Box::new(G::tag()), Box::new(shape7));
        let ghost shape5 = Shape::Pair(Box::new(F::tag()), Box::new(shape6));
        let ghost shape4 = Shape::Pair(Box::new(E::tag()), Box::new(shape5));
        let ghost shape3 = Shape::Pair(Box::new(D::tag()), Box::new(shape4));
        let ghost shape2 = Shape::Pair(Box::new(C::tag()), Box::new(shape3));
        let ghost shape1 = Shape::Pair(Box::new(B::tag()), Box::new(shape2));
        let ghost shape0 = Shape::Pair(Box::new(A::tag()), Box::new(shape1));
        let rest0 = payload;
        assert(conforms(rest0@, shape0));
        let (a0, rest1) = rest0.split();
        let a0 = A::from_payload(a0);
        assert(conforms(rest1@, shape1));
        let (b0, rest2) = rest1.split();
        let b0 = B::from_payload(b0);
        assert(conforms(rest2@, shape2));
        let (c0, rest3) = rest2.split();
        let c0 = C::from_payload(c0);
        assert(conforms(rest3@, shape3));
        let (d0, rest4) = rest3.split();
        let d0 = D::from_payload(d0);
        assert(conforms(rest4@, shape4));
        let (e0, rest5) = rest4.split();
        let e0 = E::from_payload(e0);
        assert(conforms(rest5@, shape5));
        let (f0, rest6) = rest5.split();
        let f0 = F::from_payload(f0);
        assert(conforms(rest6@, shape6));
        let (g0, rest7) = rest6.split();
        let g0 = G::from_payload(g0);
        assert(conforms(rest7@, shape7));
        let (h0, rest8) = rest7.split();
        let h0 = H::from_payload(h0);
        assert(conforms(rest8@, shape8));
        let (i0, rest9) = rest8.split();
        let i0 = I::from_payload(i0);
        assert(conforms(rest9@, shape9));
        let (j0, rest10) = rest9.split();
        let j0 = J::from_payload(j0);
        assert(conforms(rest10@, shape10));
        let (k0, rest11) = rest10.split();
        let k0 = K::from_payload(k0);
        assert(conforms(rest11@, shape11));
        let (l0, rest12) = rest11.split();
        let l0 = L::from_payload(l0);
        assert(conforms(rest12@, shape12));
        assert(rest12@ == Content::End);
        (a0, b0, c0, d0, e0, f0, g0, h0, i0, j0, k0, l0)
    }

    fn into_variant(self) -> (variant: Variant) {
        proof {
            self.content_conforms();
        }
        Variant::from_parts(self.into_payload(), Self::shape())
    }
}

} // verus!
