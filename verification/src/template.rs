//! The generated macro definition and its rendering.
//!
//! A definition is three things: the derived macro name, the target type's
//! name, and the variant, which fixes the mutation method the expansion
//! calls (`push`, `push_front`, one-argument `insert`, or two-argument
//! `insert`) and the literal syntax the macro accepts (a comma list of
//! expressions, or a comma list of `key => value` pairs). `render` turns a
//! definition into the source text of the declarative macro.

use vstd::prelude::*;
use vstd::string::StringExecFns;

verus! {

/// The four generator variants, distinguished by the mutation call their
/// generated macro emits per element. The intended call syntax is a bracket
/// list for the first two and a brace list for the last two.
#[derive(Clone, Copy, Debug, PartialEq, Eq, Structural)]
pub enum Variant {
    /// `name![e1, e2, ...]`, one `push(e)` per element.
    VecLit,
    /// `name![e1, e2, ...]`, one `push_front(e)` per element.
    VecFrontLit,
    /// `name!{e1, e2, ...}`, one `insert(e)` per element.
    SetLit,
    /// `name!{k1 => v1, ...}`, one `insert(k, v)` per pair.
    MapLit,
}

/// A generated macro definition.
#[derive(Debug)]
pub struct MacroDef {
    /// The macro's name, derived from the target type's name.
    pub macro_name: String,
    /// The target type's declared name.
    pub target: String,
    /// Which mutation call the expansion emits.
    pub variant: Variant,
}

/// The name of the mutation method a variant's expansion calls.
pub open spec fn method_of(v: Variant) -> Seq<char> {
    match v {
        Variant::VecLit => "push"@,
        Variant::VecFrontLit => "push_front"@,
        Variant::SetLit => "insert"@,
        Variant::MapLit => "insert"@,
    }
}

/// The source text of a generated macro over single-element mutation calls.
pub open spec fn render_list_spec(mname: Seq<char>, target: Seq<char>, method: Seq<char>) -> Seq<
    char,
> {
    "macro_rules! "@ + mname
        + " {\n    ( $( $elem:expr ),* ) => {\n        {\n            let mut temp = "@ + target
        + "::new();\n            $(\n                temp."@ + method
        + "($elem);\n            )*\n            temp\n        }\n    };\n}\n"@
}

/// The source text of a generated macro over pairwise `insert(k, v)` calls.
pub open spec fn render_map_spec(mname: Seq<char>, target: Seq<char>) -> Seq<char> {
    "macro_rules! "@ + mname
        + " {\n    ( $( $key:expr => $val:expr ),* ) => {\n        {\n            let mut temp = "@
        + target
        + "::new();\n            $(\n                temp.insert($key, $val);\n            )*\n            temp\n        }\n    };\n}\n"@
}

/// The source text of a generated macro definition.
pub open spec fn render_spec(mname: Seq<char>, target: Seq<char>, v: Variant) -> Seq<char> {
    match v {
        Variant::MapLit => render_map_spec(mname, target),
        _ => render_list_spec(mname, target, method_of(v)),
    }
}

impl MacroDef {
    /// Render the definition as the source text of a declarative macro: one
    /// rule that constructs a fresh instance with `new` and then hands every
    /// written element, left to right, to the variant's mutation method.
    pub fn render(&self) -> (t: String)
        ensures
            t@ == render_spec(self.macro_name@, self.target@, self.variant),
    {
        let mut out = String::new();
        out.append("macro_rules! ");
        out.append(self.macro_name.as_str());
        match self.variant {
            Variant::MapLit => {
                out.append(
                    " {\n    ( $( $key:expr => $val:expr ),* ) => {\n        {\n            let mut temp = ",
                );
                out.append(self.target.as_str());
                out.append(
                    "::new();\n            $(\n                temp.insert($key, $val);\n            )*\n            temp\n        }\n    };\n}\n",
                );
                proof {
                    assert(out@ =~= render_spec(self.macro_name@, self.target@, self.variant));
                }
                out
            },
            _ => {
                out.append(
                    " {\n    ( $( $elem:expr ),* ) => {\n        {\n            let mut temp = ",
                );
                out.append(self.target.as_str());
                out.append("::new();\n            $(\n                temp.");
                match self.variant {
                    Variant::VecFrontLit => out.append("push_front"),
                    Variant::SetLit => out.append("insert"),
                    _ => out.append("push"),
                }
                out.append("($elem);\n            )*\n            temp\n        }\n    };\n}\n");
                proof {
                    assert(out@ =~= render_spec(self.macro_name@, self.target@, self.variant));
                }
                out
            },
        }
    }
}

} // verus!
