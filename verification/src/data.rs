//! What the ledger answers to the reading commands, and how the commands
//! print it.
use vstd::prelude::*;
use crate::json::{json_debug, json_debug_string, json_value_model};
use crate::text::{
    append_or_null, debug_str, lemma_middle_determined, opt_string_view, or_null, str_debug,
};

verus! {

/// The reply of the ledger to a request.
pub struct Reply<T> {
    pub result: ReplyResult<T>,
}

/// The result part of a ledger's reply.
pub struct ReplyResult<T> {
    pub data: T,
}

/// A NYM as the ledger holds it.
pub struct NymData {
    pub identifier: Option<String>,
    pub dest: String,
    pub role: Option<String>,
    pub alias: Option<String>,
    pub verkey: Option<String>,
}

impl NymData {
    /// How the command line prints a NYM: each field after its label, an
    /// absent one as `null`.
    pub open spec fn text(&self) -> Seq<char> {
        "\nsubmitter:"@ + or_null(opt_string_view(self.identifier)) + " | did:"@ + self.dest@
            + " | role:"@ + or_null(opt_string_view(self.role)) + " | alias:"@ + or_null(
            opt_string_view(self.alias),
        ) + " | verkey:"@ + or_null(opt_string_view(self.verkey))
    }

    /// The printed form of the NYM.
    pub fn to_string(&self) -> (s: String)
        ensures
            s@ == self.text(),
    {
        let mut s = String::from_str("\nsubmitter:");
        append_or_null(&mut s, &self.identifier);
        s.append(" | did:");
        s.append(self.dest.as_str());
        s.append(" | role:");
        append_or_null(&mut s, &self.role);
        s.append(" | alias:");
        append_or_null(&mut s, &self.alias);
        s.append(" | verkey:");
        append_or_null(&mut s, &self.verkey);
        s
    }
}

/// An endpoint attribute: the address of an agent.
pub struct Endpoint {
    pub ha: String,
}

impl Endpoint {
    /// `{:?}` of an endpoint.
    pub open spec fn debug_text(&self) -> Seq<char> {
        "Endpoint { ha: "@ + str_debug(self.ha@) + " }"@
    }

    /// The `{:?}` rendering of the endpoint.
    pub fn debug_string(&self) -> (s: String)
        ensures
            s@ == self.debug_text(),
    {
        let mut s = String::from_str("Endpoint { ha: ");
        let ha = debug_str(self.ha.as_str());
        s.append(ha.as_str());
        s.append(" }");
        s
    }
}

/// An attribute of a NYM as the ledger holds it.
pub struct AttribData {
    pub endpoint: Option<Endpoint>,
}

impl AttribData {
    /// How the command line prints an attribute: its endpoint on a line of
    /// its own, or nothing when it has none.
    pub open spec fn text(&self) -> Seq<char> {
        match self.endpoint {
            Some(e) => "\n"@ + e.debug_text(),
            None => seq![],
        }
    }

    /// The printed form of the attribute.
    pub fn to_string(&self) -> (s: String)
        ensures
            s@ == self.text(),
    {
        match &self.endpoint {
            Some(e) => {
                let mut s = String::from_str("\n");
                let d = e.debug_string();
                s.append(d.as_str());
                s
            },
            None => String::new(),
        }
    }
}

/// The `{:?}` rendering of a list of strings printed as a set: each string
/// rendered by `{:?}`, separated by `, `.
pub open spec fn debug_entries(items: Seq<Seq<char>>) -> Seq<char>
    decreases items.len(),
{
    if items.len() == 0 {
        seq![]
    } else if items.len() == 1 {
        str_debug(items[0])
    } else {
        debug_entries(items.drop_last()) + ", "@ + str_debug(items.last())
    }
}

/// The characters of each string of a list.
pub open spec fn strings_view(items: Seq<String>) -> Seq<Seq<char>> {
    items.map_values(|s: String| s@)
}

/// A schema as the ledger holds it. Its attribute names form a set: the
/// list holds each once, in the order in which they are printed.
pub struct SchemaData {
    pub attr_names: Vec<String>,
    pub name: String,
    pub origin: Option<String>,
    pub version: String,
}

impl SchemaData {
    /// The attribute names are distinct, as the members of a set.
    pub open spec fn wf(&self) -> bool {
        strings_view(self.attr_names@).no_duplicates()
    }

    /// How the command line prints a schema: its name, its version, its
    /// attribute names as a set, and its origin (`null` when absent).
    pub open spec fn text(&self) -> Seq<char> {
        "\nname:"@ + self.name@ + " | version:"@ + self.version@ + " | attr_names:{"@
            + debug_entries(strings_view(self.attr_names@)) + "} | origin:"@ + or_null(
            opt_string_view(self.origin),
        )
    }

    /// The printed form of the schema.
    pub fn to_string(&self) -> (s: String)
        ensures
            s@ == self.text(),
    {
        let mut s = String::from_str("\nname:");
        s.append(self.name.as_str());
        s.append(" | version:");
        s.append(self.version.as_str());
        s.append(" | attr_names:{");
        let ghost start = s@;
        let ghost names = strings_view(self.attr_names@);
        let n = self.attr_names.len();
        let mut i: usize = 0;
        while i < n
            invariant
                n == self.attr_names@.len(),
                names == strings_view(self.attr_names@),
                i <= n,
                s@ == start + debug_entries(names.take(i as int)),
            decreases n - i,
        {
            if i > 0 {
                s.append(", ");
            }
            let d = debug_str(self.attr_names[i].as_str());
            s.append(d.as_str());
            assert(names.take(i + 1).drop_last() =~= names.take(i as int));
            i = i + 1;
        }
        assert(names.take(n as int) =~= names);
        s.append("} | origin:");
        append_or_null(&mut s, &self.origin);
        s
    }
}

/// A claim definition as the ledger holds it: its keys as JSON values.
pub struct ClaimDefData {
    pub primary: serde_json::Value,
    pub revocation: Option<serde_json::Value>,
}

impl ClaimDefData {
    /// `{:?}` of a claim definition.
    pub open spec fn debug_text(&self) -> Seq<char> {
        "ClaimDefData { primary: "@ + json_debug(json_value_model(self.primary))
            + ", revocation: "@ + match self.revocation {
            Some(r) => "Some("@ + json_debug(json_value_model(r)) + ")"@,
            None => "None"@,
        } + " }"@
    }

    /// The `{:?}` rendering of the claim definition.
    pub fn debug_string(&self) -> (s: String)
        ensures
            s@ == self.debug_text(),
    {
        let mut s = String::from_str("ClaimDefData { primary: ");
        let p = json_debug_string(&self.primary);
        s.append(p.as_str());
        s.append(", revocation: ");
        match &self.revocation {
            Some(r) => {
                s.append("Some(");
                let d = json_debug_string(r);
                s.append(d.as_str());
                s.append(")");
            },
            None => s.append("None"),
        }
        s.append(" }");
        s
    }
}

/// A printed NYM shows each field after its own label, in the order
/// submitter, did, role, alias, verkey, an absent field as `null`.
pub proof fn lemma_nym_text_labels(n: NymData)
    ensures
        n.text() == "\nsubmitter:"@ + or_null(opt_string_view(n.identifier)) + " | did:"@
            + n.dest@ + " | role:"@ + or_null(opt_string_view(n.role)) + " | alias:"@ + or_null(
            opt_string_view(n.alias),
        ) + " | verkey:"@ + or_null(opt_string_view(n.verkey)),
{
}

/// Two NYMs that differ only in their role print alike exactly when their
/// roles read alike: the text after ` | role:` is the NYM's own role.
pub proof fn lemma_nym_text_shows_role(n1: NymData, n2: NymData)
    requires
        n1.identifier == n2.identifier,
        n1.dest == n2.dest,
        n1.alias == n2.alias,
        n1.verkey == n2.verkey,
    ensures
        n1.text() == n2.text() <==> or_null(opt_string_view(n1.role)) == or_null(
            opt_string_view(n2.role),
        ),
{
    let a = "\nsubmitter:"@ + or_null(opt_string_view(n1.identifier)) + " | did:"@ + n1.dest@
        + " | role:"@;
    let b = " | alias:"@ + or_null(opt_string_view(n1.alias)) + " | verkey:"@ + or_null(
        opt_string_view(n1.verkey),
    );
    let r1 = or_null(opt_string_view(n1.role));
    let r2 = or_null(opt_string_view(n2.role));
    assert(n1.text() =~= a + r1 + b);
    assert(n2.text() =~= a + r2 + b);
    if n1.text() == n2.text() {
        lemma_middle_determined(a, r1, r2, b);
    }
}

/// Two NYMs that differ only in their verification key print alike exactly
/// when their keys read alike: the text after ` | verkey:` is the NYM's own
/// key.
pub proof fn lemma_nym_text_shows_verkey(n1: NymData, n2: NymData)
    requires
        n1.identifier == n2.identifier,
        n1.dest == n2.dest,
        n1.role == n2.role,
        n1.alias == n2.alias,
    ensures
        n1.text() == n2.text() <==> or_null(opt_string_view(n1.verkey)) == or_null(
            opt_string_view(n2.verkey),
        ),
{
    let a = "\nsubmitter:"@ + or_null(opt_string_view(n1.identifier)) + " | did:"@ + n1.dest@
        + " | role:"@ + or_null(opt_string_view(n1.role)) + " | alias:"@ + or_null(
        opt_string_view(n1.alias),
    ) + " | verkey:"@;
    let v1 = or_null(opt_string_view(n1.verkey));
    let v2 = or_null(opt_string_view(n2.verkey));
    let e: Seq<char> = seq![];
    assert(n1.text() =~= a + v1 + e);
    assert(n2.text() =~= a + v2 + e);
    if n1.text() == n2.text() {
        lemma_middle_determined(a, v1, v2, e);
    }
}

/// The set rendering of no strings is empty, and that of one string is
/// that string's `{:?}` text.
pub proof fn lemma_debug_entries_single(x: Seq<char>)
    ensures
        debug_entries(seq![]) == Seq::<char>::empty(),
        debug_entries(seq![x]) == str_debug(x),
{
}

/// The set rendering of two lists one after the other is the rendering of
/// the first, `, `, and the rendering of the second: every two neighbouring
/// strings are separated by exactly one `, `.
pub proof fn lemma_debug_entries_concat(a: Seq<Seq<char>>, b: Seq<Seq<char>>)
    requires
        a.len() > 0,
        b.len() > 0,
    ensures
        debug_entries(a + b) == debug_entries(a) + ", "@ + debug_entries(b),
    decreases b.len(),
{
    let ab = a + b;
    assert(ab.drop_last() =~= a + b.drop_last());
    assert(ab.last() == b.last());
    if b.len() == 1 {
        assert(b.drop_last() =~= seq![]);
        assert(ab.drop_last() =~= a);
    } else {
        lemma_debug_entries_concat(a, b.drop_last());
        assert(debug_entries(ab) =~= debug_entries(a) + ", "@ + debug_entries(b.drop_last()) + ", "@
            + str_debug(b.last()));
    }
}

/// A printed schema shows its name, its version, its attribute names
/// between braces, and its origin (`null` when absent), each after its own
/// label.
pub proof fn lemma_schema_text_labels(s: SchemaData)
    ensures
        s.text() == "\nname:"@ + s.name@ + " | version:"@ + s.version@ + " | attr_names:{"@
            + debug_entries(strings_view(s.attr_names@)) + "} | origin:"@ + or_null(
            opt_string_view(s.origin),
        ),
{
}

/// A printed attribute is its endpoint, shown as `Endpoint { ha: .. }`
/// with the `{:?}` text of its address, on a line of its own; an attribute
/// without an endpoint prints as nothing.
pub proof fn lemma_attrib_text(a: AttribData)
    ensures
        a.endpoint matches Some(e) ==> a.text() == "\nEndpoint { ha: "@ + str_debug(e.ha@) + " }"@,
        a.endpoint is None ==> a.text().len() == 0,
{
    reveal_strlit("\n");
    reveal_strlit("Endpoint { ha: ");
    reveal_strlit("\nEndpoint { ha: ");
    if let Some(e) = a.endpoint {
        assert(a.text() =~= "\nEndpoint { ha: "@ + str_debug(e.ha@) + " }"@);
    }
}

/// A claim definition shows as `ClaimDefData { primary: .., revocation: .. }`
/// with the `Debug` text of its primary key, and `Some(..)` around the
/// `Debug` text of its revocation key, or `None`.
pub proof fn lemma_claim_def_debug_text(c: ClaimDefData)
    ensures
        c.revocation matches Some(r) ==> c.debug_text() == "ClaimDefData { primary: "@ + json_debug(
            json_value_model(c.primary),
        ) + ", revocation: Some("@ + json_debug(json_value_model(r)) + ") }"@,
        c.revocation is None ==> c.debug_text() == "ClaimDefData { primary: "@ + json_debug(
            json_value_model(c.primary),
        ) + ", revocation: None }"@,
{
    reveal_strlit(", revocation: ");
    reveal_strlit("Some(");
    reveal_strlit(")");
    reveal_strlit(" }");
    reveal_strlit(") }");
    reveal_strlit("None");
    reveal_strlit(", revocation: Some(");
    reveal_strlit(", revocation: None }");
    let p = "ClaimDefData { primary: "@ + json_debug(json_value_model(c.primary));
    match c.revocation {
        Some(r) => {
            assert(c.debug_text() =~= p + ", revocation: Some("@ + json_debug(json_value_model(r))
                + ") }"@);
        },
        None => {
            assert(c.debug_text() =~= p + ", revocation: None }"@);
        },
    }
}

/// The characters of a list of strings are, in order, those of each string.
pub proof fn lemma_strings_view(items: Seq<String>)
    ensures
        strings_view(items).len() == items.len(),
        forall|i: int| 0 <= i < items.len() ==> #[trigger] strings_view(items)[i] == items[i]@,
{
}

} // verus!
