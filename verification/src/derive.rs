//! The four generators.
//!
//! Each takes the source text of one annotated type declaration and returns
//! the source text of the generated literal-construction macro, or the error
//! that names which of the two fatal conditions held: the text did not parse
//! as a type declaration, or it parsed but is not a plain struct.

use vstd::prelude::*;

use crate::decl::check_shape;
use crate::decl::Decl;
use crate::decl::DeriveError;
use crate::decl::Shape;
use crate::name::derive_macro_name;
use crate::name::snake_of;
use crate::template::render_spec;
use crate::template::MacroDef;
use crate::template::Variant;

verus! {

/// What `syn` parses out of one item's source text: `None` when the text is
/// not a type declaration, otherwise the declared name and the shape.
pub uninterp spec fn parsed_decl(s: Seq<char>) -> Option<Decl>;

/// Relies on `syn::parse_str::<syn::DeriveInput>`: parses the source text of
/// one struct, enum or union declaration, returning its declared name and
/// its shape; the result depends on the text alone.
#[verifier::external_body]
fn parse_decl(src: &str) -> (r: Option<Decl>)
    ensures
        r == parsed_decl(src@),
{
    match syn::parse_str::<syn::DeriveInput>(src) {
        Ok(input) => {
            let shape = match input.data {
                syn::Data::Struct(_) => Shape::Struct,
                syn::Data::Enum(_) => Shape::Enum,
                syn::Data::Union(_) => Shape::Union,
            };
            Some(Decl { name: input.ident.to_string(), shape })
        },
        Err(_) => None,
    }
}

/// Build the macro definition for a declaration: reject every shape but the
/// plain struct, derive the macro's name from the declared name, and record
/// the variant.
pub fn build_def(decl: &Decl, variant: Variant) -> (r: Result<MacroDef, DeriveError>)
    ensures
        decl.shape == Shape::Struct ==> (r matches Ok(m) && m.macro_name@ == snake_of(decl.name@)
            && m.target@ == decl.name@ && m.variant == variant),
        decl.shape != Shape::Struct ==> r == Err::<MacroDef, DeriveError>(
            DeriveError::UnsupportedShape,
        ),
{
    match check_shape(decl.shape) {
        Ok(_) => {},
        Err(e) => {
            return Err(e);
        },
    }
    let macro_name = derive_macro_name(decl.name.as_str());
    Ok(MacroDef { macro_name, target: decl.name.clone(), variant })
}

/// What a generator returns for the text `s` under variant `v`: the rendered
/// macro definition for a struct declaration, and otherwise the error naming
/// the fatal condition.
pub open spec fn derive_post(s: Seq<char>, v: Variant, r: Result<String, DeriveError>) -> bool {
    match parsed_decl(s) {
        None => r == Err::<String, DeriveError>(DeriveError::Unparsable),
        Some(d) => if d.shape == Shape::Struct {
            r matches Ok(t) && t@ == render_spec(snake_of(d.name@), d.name@, v)
        } else {
            r == Err::<String, DeriveError>(DeriveError::UnsupportedShape)
        },
    }
}

fn derive_with(src: &str, variant: Variant) -> (r: Result<String, DeriveError>)
    ensures
        derive_post(src@, variant, r),
{
    match parse_decl(src) {
        None => Err(DeriveError::Unparsable),
        Some(decl) => match build_def(&decl, variant) {
            Ok(def) => Ok(def.render()),
            Err(e) => Err(e),
        },
    }
}

/// Back-insertion generator: for a struct declaration, the generated macro
/// takes a bracket list of expressions and expands to `new` followed by one
/// `push(e)` per element, in the written order.
pub fn derive_vec_lit(src: &str) -> (r: Result<String, DeriveError>)
    ensures
        derive_post(src@, Variant::VecLit, r),
{
    derive_with(src, Variant::VecLit)
}

/// Front-insertion generator: as the back-insertion one, but each element is
/// handed to `push_front(e)`, so the value's logical order is the reverse of
/// the written order.
pub fn derive_vec_front_lit(src: &str) -> (r: Result<String, DeriveError>)
    ensures
        derive_post(src@, Variant::VecFrontLit, r),
{
    derive_with(src, Variant::VecFrontLit)
}

/// Set-insertion generator: the generated macro takes a brace list of
/// expressions and hands each, duplicates included, to `insert(e)` in the
/// written order.
pub fn derive_set_lit(src: &str) -> (r: Result<String, DeriveError>)
    ensures
        derive_post(src@, Variant::SetLit, r),
{
    derive_with(src, Variant::SetLit)
}

/// Pairwise-insertion generator: the generated macro takes a brace list of
/// `key => value` pairs and hands each pair, duplicate keys included, to
/// `insert(k, v)` in the written order.
pub fn derive_map_lit(src: &str) -> (r: Result<String, DeriveError>)
    ensures
        derive_post(src@, Variant::MapLit, r),
{
    derive_with(src, Variant::MapLit)
}

} // verus!
