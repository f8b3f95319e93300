//! Deterministic naming of synthesized items: the mock type's name and the
//! name of the private module that hosts the generated machinery.

use vstd::prelude::*;

use crate::ast::Ident;
use crate::util::push_chars;

verus! {

/// The prefix of every synthesized mock type name.
pub open spec fn mock_prefix() -> Seq<char> {
    seq!['M', 'o', 'c', 'k']
}

/// The prefix of every synthesized private-module name.
pub open spec fn mod_prefix() -> Seq<char> {
    seq!['_', '_', 'm', 'o', 'c', 'k', '_']
}

/// The separator between a type's name and an interface's name in a
/// synthesized module name.
pub open spec fn name_sep() -> Seq<char> {
    seq!['_']
}

/// The mock type's name for a given original identifier: `Foo` becomes
/// `MockFoo`.  The synthesized identifier keeps the original's location.
pub fn gen_mock_ident(ident: &Ident) -> (r: Ident)
    ensures
        r@ == mock_prefix() + ident@,
        r.loc == ident.loc,
{
    let mut name: Vec<char> = Vec::new();
    name.push('M');
    name.push('o');
    name.push('c');
    name.push('k');
    proof {
        assert(name@ =~= mock_prefix());
    }
    push_chars(&mut name, &ident.name);
    Ident { name, loc: ident.loc }
}

/// The private-module name for a mocked item: `Foo` becomes `__mock_Foo`;
/// when a specific type's implementation of a named interface is mocked, the
/// interface's name is appended as well (`__mock_Foo_Bar`), so that the same
/// type mocked against several interfaces yields distinct module names.
pub fn gen_mod_ident(struct_: &Ident, trait_: Option<&Ident>) -> (r: Ident)
    ensures
        r.loc == struct_.loc,
        r@ == (match trait_ {
            Option::Some(t) => mod_prefix() + struct_@ + name_sep() + t@,
            Option::None => mod_prefix() + struct_@,
        }),
{
    let mut name: Vec<char> = Vec::new();
    name.push('_');
    name.push('_');
    name.push('m');
    name.push('o');
    name.push('c');
    name.push('k');
    name.push('_');
    proof {
        assert(name@ =~= mod_prefix());
    }
    push_chars(&mut name, &struct_.name);
    match trait_ {
        Option::Some(t) => {
            name.push('_');
            proof {
                assert(name@ =~= mod_prefix() + struct_@ + name_sep());
            }
            push_chars(&mut name, &t.name);
            Ident { name, loc: struct_.loc }
        },
        Option::None => Ident { name, loc: struct_.loc },
    }
}

} // verus!
