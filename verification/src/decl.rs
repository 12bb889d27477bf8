//! The parsed class model: fields in declaration order, each with its
//! resolved type and option overrides, grouped into classes.

use vstd::prelude::*;

use crate::model::ClassModel;
use crate::model::FieldModel;
use crate::model::OptionsModel;
use crate::options::FieldOptions;
use crate::types::DartType;

verus! {

/// The serialization key of a field: the explicit override when its
/// options give one, else the field's own name.
pub open spec fn json_key_model(f: FieldModel) -> Seq<char> {
    match f.options {
        Some(o) => match o.key {
            Some(k) => k,
            None => f.name,
        },
        None => f.name,
    }
}

/// One declared field: its name, resolved type and option overrides.
pub struct DartField {
    pub name: String,
    pub typ: DartType,
    pub options: Option<FieldOptions>,
}

impl View for DartField {
    type V = FieldModel;

    open spec fn view(&self) -> FieldModel {
        FieldModel { name: self.name@, typ: self.typ@, options: self.options.deep_view() }
    }
}

impl DeepView for DartField {
    type V = FieldModel;

    open spec fn deep_view(&self) -> FieldModel {
        self.view()
    }
}

impl DartField {
    pub fn new(name: String, typ: DartType, options: Option<FieldOptions>) -> (r: Self)
        ensures
            r@ == (FieldModel { name: name@, typ: typ@, options: options.deep_view() }),
    {
        Self { name, typ, options }
    }

    /// The key under which this field is serialized.
    pub fn json_key(&self) -> (r: String)
        ensures
            r@ == json_key_model(self@),
    {
        match &self.options {
            Some(o) => match &o.key {
                Some(k) => k.clone(),
                None => self.name.clone(),
            },
            None => self.name.clone(),
        }
    }
}

/// One recognized class declaration: the base name (without its leading
/// underscore), whether a const constructor marker was seen, and the
/// fields in declaration order.
pub struct DartClass {
    pub name: String,
    pub has_const_constructor: bool,
    pub fields: Vec<DartField>,
}

impl View for DartClass {
    type V = ClassModel;

    open spec fn view(&self) -> ClassModel {
        ClassModel {
            name: self.name@,
            has_const_constructor: self.has_const_constructor,
            fields: self.fields.deep_view(),
        }
    }
}

impl DeepView for DartClass {
    type V = ClassModel;

    open spec fn deep_view(&self) -> ClassModel {
        self.view()
    }
}

impl DartClass {
    pub fn new(name: String, has_const_constructor: bool, fields: Vec<DartField>) -> (r: Self)
        ensures
            r@ == (ClassModel {
                name: name@,
                has_const_constructor,
                fields: fields.deep_view(),
            }),
    {
        Self { name, has_const_constructor, fields }
    }
}

} // verus!
