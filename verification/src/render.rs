//! Assembly of the output definition from the parsed pieces.

use vstd::prelude::*;
use crate::parts::SignatureParts;
use crate::parts::SignaturePartsView;

verus! {

/// The diagnostic carried by the generated body: the literal prefix
/// `not implemented: ` followed by the function's name, verbatim.
pub open spec fn fail_message(name: Seq<char>) -> Seq<char> {
    "not implemented: "@ + name
}

/// The injected body: one block whose sole statement panics with the
/// diagnostic message.
pub open spec fn fail_body(name: Seq<char>) -> Seq<char> {
    "{ panic!(\""@ + fail_message(name) + "\"); }"@
}

/// The attributes, each followed by one space, in their original order.
pub open spec fn rendered_attrs(attrs: Seq<Seq<char>>) -> Seq<char>
    decreases attrs.len(),
{
    if attrs.len() == 0 {
        Seq::empty()
    } else {
        rendered_attrs(attrs.drop_last()) + attrs.last() + " "@
    }
}

/// The visibility, followed by one space, or nothing when the declaration
/// has none.
pub open spec fn rendered_vis(vis: Seq<char>) -> Seq<char> {
    if vis.len() == 0 {
        Seq::<char>::empty()
    } else {
        vis + " "@
    }
}

/// The declaration part of the output: attributes, visibility and signature,
/// unchanged and in source order.
pub open spec fn rendered_declaration(p: SignaturePartsView) -> Seq<char> {
    rendered_attrs(p.attrs) + rendered_vis(p.vis) + p.sig
}

/// The whole output: the declaration followed by the injected body.
pub open spec fn rendered_definition(p: SignaturePartsView) -> Seq<char> {
    rendered_declaration(p) + " "@ + fail_body(p.name)
}

/// Determinism of the emission: equal pieces render to equal output text, so
/// what a run emits depends on nothing but what the parser handed back.
pub proof fn lemma_render_deterministic(p1: SignaturePartsView, p2: SignaturePartsView)
    requires
        p1 == p2,
    ensures
        rendered_definition(p1) == rendered_definition(p2),
{
}

/// Identity preservation: the output is the input declaration's attributes,
/// visibility and signature, unchanged and in source order, with the failing
/// body appended after them; stripping everything from the body on recovers
/// the declaration exactly.
pub proof fn lemma_identity_preservation(p: SignaturePartsView)
    ensures
        rendered_definition(p).len() == rendered_declaration(p).len() + 1 + fail_body(p.name).len(),
        rendered_definition(p).subrange(0, rendered_declaration(p).len() as int)
            == rendered_declaration(p),
        rendered_definition(p).subrange(
            rendered_declaration(p).len() as int,
            rendered_definition(p).len() as int,
        ) == " "@ + fail_body(p.name),
{
    reveal_strlit(" ");
    assert(rendered_definition(p).subrange(0, rendered_declaration(p).len() as int)
        =~= rendered_declaration(p));
    assert(rendered_definition(p).subrange(
        rendered_declaration(p).len() as int,
        rendered_definition(p).len() as int,
    ) =~= " "@ + fail_body(p.name));
}

/// Name extraction: the diagnostic message is the literal prefix
/// `not implemented: ` followed by the whole name, with nothing truncated,
/// escaped or altered.
pub proof fn lemma_fail_message_exact(name: Seq<char>)
    ensures
        fail_message(name).len() == "not implemented: "@.len() + name.len(),
        fail_message(name).subrange(0, "not implemented: "@.len() as int)
            == "not implemented: "@,
        fail_message(name).subrange(
            "not implemented: "@.len() as int,
            fail_message(name).len() as int,
        ) == name,
{
    assert(fail_message(name).subrange(0, "not implemented: "@.len() as int)
        =~= "not implemented: "@);
    assert(fail_message(name).subrange(
        "not implemented: "@.len() as int,
        fail_message(name).len() as int,
    ) =~= name);
}

/// The injected body is one block holding exactly one panic statement, and
/// the message that statement carries is exactly the diagnostic for the
/// name: the body reads no argument and cannot return normally.
pub proof fn lemma_body_carries_message(name: Seq<char>)
    ensures
        fail_body(name) == "{ panic!(\""@ + fail_message(name) + "\"); }"@,
        fail_body(name).subrange(
            "{ panic!(\""@.len() as int,
            ("{ panic!(\""@.len() + fail_message(name).len()) as int,
        ) == fail_message(name),
{
    assert(fail_body(name).subrange(
        "{ panic!(\""@.len() as int,
        ("{ panic!(\""@.len() + fail_message(name).len()) as int,
    ) =~= fail_message(name));
}

/// Builds the diagnostic message for a function name.
pub fn build_fail_message(name: &str) -> (out: String)
    ensures
        out@ == fail_message(name@),
{
    let mut out = String::new();
    out.append("not implemented: ");
    out.append(name);
    assert(out@ =~= fail_message(name@));
    out
}

/// Emits the complete definition for the parsed declaration: every piece
/// verbatim and in order, then the body that panics with the diagnostic.
pub fn render_definition(parts: &SignatureParts) -> (out: String)
    ensures
        out@ == rendered_definition(parts@),
{
    let mut out = String::new();
    let mut i: usize = 0;
    while i < parts.attrs.len()
        invariant
            i <= parts.attrs.len(),
            out@ == rendered_attrs(parts@.attrs.take(i as int)),
        decreases parts.attrs.len() - i,
    {
        out.append(parts.attrs[i].as_str());
        out.append(" ");
        proof {
            let attrs = parts@.attrs;
            assert(attrs.take(i + 1).drop_last() =~= attrs.take(i as int));
            assert(attrs.take(i + 1).last() == attrs[i as int]);
            assert(out@ =~= rendered_attrs(attrs.take(i + 1)));
        }
        i += 1;
    }
    assert(parts@.attrs.take(parts.attrs@.len() as int) =~= parts@.attrs);
    if !parts.vis.as_str().is_empty() {
        out.append(parts.vis.as_str());
        out.append(" ");
    }
    assert(out@ =~= rendered_attrs(parts@.attrs) + rendered_vis(parts@.vis));
    out.append(parts.sig.as_str());
    out.append(" ");
    out.append("{ panic!(\"");
    let msg = build_fail_message(parts.name.as_str());
    out.append(msg.as_str());
    out.append("\"); }");
    assert(out@ =~= rendered_definition(parts@));
    out
}

} // verus!
