//! A source-to-source transformation for data record declarations.
//!
//! Given a record declaration annotated with a designation of an external
//! ("remote") type, the transformation produces a rewritten copy of the
//! declaration in which every named member carries a generated getter
//! reference, together with one accessor description per member.  A
//! serialization layer can then treat the remote type as if it were the
//! local declaration, reading field values through the generated accessors.

pub mod annotation;
pub mod decl;
pub mod extract;
pub mod laws;
pub mod rewriter;
pub mod synth;
pub mod transform;
