//! Type data for MAF apps and the generators that turn it into client bindings.

use vstd::prelude::*;
use crate::schemas::typed::AppSchema;

verus! {

/// A sample record type with a generic payload, used to exercise type extraction.
pub struct Person<T> {
    id: u64,
    name: String,
    age: u8,
    data: T,
}

/// Accepts a `Person<String>` and does nothing with it; it exists so that the instantiation is
/// part of the crate's type data.
pub fn a(person: Person<String>) {
}

/// A generator of TypeScript bindings for an app's schema.
#[derive(Debug)]
pub struct TypeScriptCodegen {
    pub schema: AppSchema,
}

impl TypeScriptCodegen {
    /// The generated TypeScript source. No construct is emitted yet, so the output is empty.
    pub fn emit(&self) -> (output: String)
        ensures
            output@ == Seq::<char>::empty(),
    {
        let output = String::new();
        output
    }
}

} // verus!
