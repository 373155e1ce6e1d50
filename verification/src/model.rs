//! The data model of the engine: records, fields, annotations, the raw
//! input items a batch is collected from, and the error taxonomy, together
//! with the spec-level counterparts the contracts speak of.

use vstd::prelude::*;

verus! {

/// The error taxonomy of the engine. Every failure aborts the whole
/// transform for the batch; none is recoverable and nothing is emitted.
#[derive(Clone, Copy, Debug, PartialEq, Eq)]
pub enum EngineError {
    /// The batch is malformed: the prefix is missing, the separator is
    /// missing, or an item is not a record definition.
    Syntax,
    /// A surviving field's declared type is not a bare single name.
    UnsupportedType,
    /// An annotation holds a shape the accepted grammar cannot produce.
    InvariantViolation,
}

/// How an annotation is attached to its declaration.
#[derive(Clone, Copy, Debug, PartialEq, Eq)]
pub enum AnnStyle {
    /// Attached to the outer declaration; the filter inspects these.
    Outer,
    /// Inner, doc-comment-like style; skipped unconditionally.
    Inner,
}

/// One item inside the parenthesized list of an annotation.
#[derive(Debug, PartialEq, Eq)]
pub enum AnnItem {
    /// A bare marker word, for instance an exclusion marker.
    Word(String),
    /// A literal, carried through as opaque text; inert for the filter.
    Literal(String),
    /// A nested list or other structured shape, impossible under the
    /// accepted annotation grammar, carried as opaque text.
    Nested(String),
}

/// Spec-level counterpart of [`AnnItem`].
#[verifier::ext_equal]
pub enum AnnItemView {
    Word(Seq<char>),
    Literal(Seq<char>),
    Nested(Seq<char>),
}

/// The payload of an annotation.
#[derive(Debug, PartialEq, Eq)]
pub enum AnnBody {
    /// A namespace keyword followed by a parenthesized list of items.
    List { namespace: String, items: Vec<AnnItem> },
    /// Any other payload, carried through as opaque text; inert
    /// pass-through metadata.
    Other(String),
}

/// Spec-level counterpart of [`AnnBody`].
#[verifier::ext_equal]
pub enum AnnBodyView {
    List { namespace: Seq<char>, items: Seq<AnnItemView> },
    Other(Seq<char>),
}

/// An annotation attached to a field.
#[derive(Debug, PartialEq, Eq)]
pub struct Annotation {
    pub style: AnnStyle,
    pub body: AnnBody,
}

/// Spec-level counterpart of [`Annotation`].
#[verifier::ext_equal]
pub struct AnnotationView {
    pub style: AnnStyle,
    pub body: AnnBodyView,
}

/// A field's declared type.
#[derive(Debug, PartialEq, Eq)]
pub enum TypeRef {
    /// A bare single name.
    Name(String),
    /// Any parameterized, composite or reference form, carried as
    /// opaque text; the engine does not support rewriting these.
    Composite(String),
}

/// Spec-level counterpart of [`TypeRef`].
#[verifier::ext_equal]
pub enum TypeView {
    Name(Seq<char>),
    Composite(Seq<char>),
}

/// One field of a record definition.
#[derive(Debug, PartialEq, Eq)]
pub struct FieldDef {
    /// The field's name; absent for positional fields.
    pub name: Option<String>,
    /// The field's declared type.
    pub ty: TypeRef,
    /// The annotations attached to the field, in source order.
    pub anns: Vec<Annotation>,
}

/// Spec-level counterpart of [`FieldDef`].
#[verifier::ext_equal]
pub struct FieldView {
    pub name: Option<Seq<char>>,
    pub ty: TypeView,
    pub anns: Seq<AnnotationView>,
}

/// The field shape a record is declared with.
#[derive(Clone, Copy, Debug, PartialEq, Eq)]
pub enum Shape {
    /// Curly-brace shape with named fields.
    Named,
    /// Parenthesized shape with positional fields.
    Positional,
    /// No fields at all.
    Unit,
}

/// One record definition.
#[derive(Debug, PartialEq, Eq)]
pub struct RecordDef {
    /// The record's declared name.
    pub name: String,
    /// The declared field shape.
    pub shape: Shape,
    /// The fields, in declaration order; empty for a unit record.
    pub fields: Vec<FieldDef>,
}

/// Spec-level counterpart of [`RecordDef`].
#[verifier::ext_equal]
pub struct RecordView {
    pub name: Seq<char>,
    pub shape: Shape,
    pub fields: Seq<FieldView>,
}

/// One item of the raw structured input handed to the collector.
#[derive(Debug, PartialEq, Eq)]
pub enum RawItem {
    /// A bare name token; in first position, the naming prefix.
    Name(String),
    /// The separator standing between the prefix and the definitions.
    Sep,
    /// A structured record definition.
    Def(RecordDef),
}

/// Spec-level counterpart of [`RawItem`].
#[verifier::ext_equal]
pub enum RawItemView {
    Name(Seq<char>),
    Sep,
    Def(RecordView),
}

/// An ordered batch: the naming prefix and the record definitions.
#[derive(Debug, PartialEq, Eq)]
pub struct Batch {
    /// The naming prefix for the slim companions.
    pub prefix: String,
    /// The record definitions, in declaration order.
    pub records: Vec<RecordDef>,
}

/// Spec-level counterpart of [`Batch`].
#[verifier::ext_equal]
pub struct BatchView {
    pub prefix: Seq<char>,
    pub records: Seq<RecordView>,
}

impl DeepView for AnnItem {
    type V = AnnItemView;

    open spec fn deep_view(&self) -> AnnItemView {
        match self {
            AnnItem::Word(w) => AnnItemView::Word(w@),
            AnnItem::Literal(t) => AnnItemView::Literal(t@),
            AnnItem::Nested(t) => AnnItemView::Nested(t@),
        }
    }
}

impl DeepView for AnnBody {
    type V = AnnBodyView;

    open spec fn deep_view(&self) -> AnnBodyView {
        match self {
            AnnBody::List { namespace, items } => AnnBodyView::List {
                namespace: namespace@,
                items: items.deep_view(),
            },
            AnnBody::Other(t) => AnnBodyView::Other(t@),
        }
    }
}

impl DeepView for Annotation {
    type V = AnnotationView;

    open spec fn deep_view(&self) -> AnnotationView {
        AnnotationView { style: self.style, body: self.body.deep_view() }
    }
}

impl DeepView for TypeRef {
    type V = TypeView;

    open spec fn deep_view(&self) -> TypeView {
        match self {
            TypeRef::Name(n) => TypeView::Name(n@),
            TypeRef::Composite(t) => TypeView::Composite(t@),
        }
    }
}

impl DeepView for FieldDef {
    type V = FieldView;

    open spec fn deep_view(&self) -> FieldView {
        FieldView {
            name: self.name.deep_view(),
            ty: self.ty.deep_view(),
            anns: self.anns.deep_view(),
        }
    }
}

impl DeepView for RecordDef {
    type V = RecordView;

    open spec fn deep_view(&self) -> RecordView {
        RecordView {
            name: self.name@,
            shape: self.shape,
            fields: self.fields.deep_view(),
        }
    }
}

impl DeepView for RawItem {
    type V = RawItemView;

    open spec fn deep_view(&self) -> RawItemView {
        match self {
            RawItem::Name(n) => RawItemView::Name(n@),
            RawItem::Sep => RawItemView::Sep,
            RawItem::Def(d) => RawItemView::Def(d.deep_view()),
        }
    }
}

impl DeepView for Batch {
    type V = BatchView;

    open spec fn deep_view(&self) -> BatchView {
        BatchView { prefix: self.prefix@, records: self.records.deep_view() }
    }
}

impl Clone for AnnItem {
    fn clone(&self) -> (res: Self)
        ensures
            res == *self,
    {
        match self {
            AnnItem::Word(w) => AnnItem::Word(w.clone()),
            AnnItem::Literal(t) => AnnItem::Literal(t.clone()),
            AnnItem::Nested(t) => AnnItem::Nested(t.clone()),
        }
    }
}

impl Clone for AnnBody {
    fn clone(&self) -> (res: Self)
        ensures
            res.deep_view() == self.deep_view(),
    {
        match self {
            AnnBody::List { namespace, items } => {
                let dup_items = items.clone();
                proof {
                    assert forall|i: int| 0 <= i < items@.len() implies dup_items@[i]
                        == items@[i] by {
                        assert(cloned::<AnnItem>(items@[i], dup_items@[i]));
                    }
                    assert(dup_items.deep_view() =~= items.deep_view());
                }
                AnnBody::List { namespace: namespace.clone(), items: dup_items }
            },
            AnnBody::Other(t) => AnnBody::Other(t.clone()),
        }
    }
}

impl Clone for Annotation {
    fn clone(&self) -> (res: Self)
        ensures
            res.deep_view() == self.deep_view(),
    {
        Annotation { style: self.style, body: self.body.clone() }
    }
}

impl Clone for TypeRef {
    fn clone(&self) -> (res: Self)
        ensures
            res == *self,
    {
        match self {
            TypeRef::Name(n) => TypeRef::Name(n.clone()),
            TypeRef::Composite(t) => TypeRef::Composite(t.clone()),
        }
    }
}

impl Clone for RecordDef {
    fn clone(&self) -> (res: Self)
        ensures
            res.deep_view() == self.deep_view(),
    {
        let dup_fields = self.fields.clone();
        proof {
            assert forall|i: int| 0 <= i < self.fields@.len() implies dup_fields@[i].deep_view()
                == self.fields@[i].deep_view() by {
                assert(cloned::<FieldDef>(self.fields@[i], dup_fields@[i]));
            }
            assert(dup_fields.deep_view() =~= self.fields.deep_view());
        }
        RecordDef { name: self.name.clone(), shape: self.shape, fields: dup_fields }
    }
}

impl Clone for FieldDef {
    fn clone(&self) -> (res: Self)
        ensures
            res.deep_view() == self.deep_view(),
    {
        let dup_anns = self.anns.clone();
        proof {
            assert forall|i: int| 0 <= i < self.anns@.len() implies dup_anns@[i].deep_view()
                == self.anns@[i].deep_view() by {
                assert(cloned::<Annotation>(self.anns@[i], dup_anns@[i]));
            }
            assert(dup_anns.deep_view() =~= self.anns.deep_view());
        }
        FieldDef { name: self.name.clone(), ty: self.ty.clone(), anns: dup_anns }
    }
}

} // verus!
