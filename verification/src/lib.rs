//! Rendering core of a Python type-stub generator.
//!
//! Registration descriptors for a class's exposed members — attributes,
//! properties, methods, constructors — are converted into declaration values,
//! and each declaration value renders itself as a self-contained block of
//! stub text with the decorators, receiver bindings, type annotations and
//! documentation blocks that a Python type checker expects. Every declaration
//! also reports the set of modules its type annotations require, so that an
//! enclosing assembler can emit the import statements of the final stub file.

pub mod text;
pub mod imports;
pub mod annotation;
pub mod member;
pub mod method;
pub mod new;
