//! Qualified package names of the form `group/name`.

use vstd::prelude::*;
use vstd::string::*;

verus! {

/// Characters allowed in a name segment: ASCII letters, digits, `_` and `-`.
pub open spec fn token_char(c: char) -> bool {
    ('a' <= c <= 'z') || ('A' <= c <= 'Z') || ('0' <= c <= '9') || c == '_' || c == '-'
}

/// A name segment is a non-empty run of token characters.
pub open spec fn valid_token(text: Seq<char>) -> bool {
    text.len() > 0 && forall|i: int| 0 <= i < text.len() ==> token_char(#[trigger] text[i])
}

/// The raw rendering of a name: both segments around a slash.
pub open spec fn qualified(group: Seq<char>, name: Seq<char>) -> Seq<char> {
    group + seq!['/'] + name
}

/// The dotted rendering used for source modules.
pub open spec fn dotted(group: Seq<char>, name: Seq<char>) -> Seq<char> {
    group + seq!['.'] + name
}

/// Whether `a` comes before `b` in dictionary order: at the first place
/// where they differ `a` has the smaller character, or `a` ends there.
pub open spec fn text_before(a: Seq<char>, b: Seq<char>) -> bool
    decreases a.len(),
{
    if b.len() == 0 {
        false
    } else if a.len() == 0 {
        true
    } else if a[0] != b[0] {
        a[0] < b[0]
    } else {
        text_before(a.skip(1), b.skip(1))
    }
}

/// Whether one name comes before another: by group, and within a group by
/// name.
pub open spec fn name_before(a: NameView, b: NameView) -> bool {
    text_before(a.group, b.group) || (a.group == b.group && text_before(a.name, b.name))
}

/// The capitalised form of a segment, as computed by the `Inflector` crate's
/// `to_pascal_case`.
pub uninterp spec fn pascal_case(text: Seq<char>) -> Seq<char>;

/// Mathematical value of a [`Name`].
pub struct NameView {
    pub group: Seq<char>,
    pub name: Seq<char>,
}

/// A two-part package name. Both segments are valid tokens.
#[derive(Debug)]
pub struct Name {
    group: String,
    name: String,
}

impl View for Name {
    type V = NameView;

    closed spec fn view(&self) -> NameView {
        NameView { group: self.group@, name: self.name@ }
    }
}

impl Clone for Name {
    fn clone(&self) -> (r: Self)
        ensures
            r@ == self@,
    {
        Name { group: self.group.clone(), name: self.name.clone() }
    }
}

fn token_byte(b: u8) -> (ok: bool)
    ensures
        ok == token_char(b as char),
{
    (b >= 97 && b <= 122) || (b >= 65 && b <= 90) || (b >= 48 && b <= 57) || b == 95 || b == 45
}

/// Decides whether `text` is a valid name segment.
pub fn is_token(text: &str) -> (ok: bool)
    ensures
        ok == valid_token(text@),
{
    if !text.is_ascii() {
        proof {
            if valid_token(text@) {
                assert forall|i: int| 0 <= i < text@.len() implies '\0' <= #[trigger] text@[i]
                    <= '\u{7f}' by {
                    assert(token_char(text@[i]));
                }
            }
        }
        return false;
    }
    let n = text.unicode_len();
    if n == 0 {
        return false;
    }
    let mut i: usize = 0;
    while i < n
        invariant
            n == text@.len(),
            text.is_ascii(),
            i <= n,
            forall|j: int| 0 <= j < i ==> token_char(#[trigger] text@[j]),
        decreases n - i,
    {
        let b = text.get_ascii(i);
        proof {
            let c = text@[i as int];
            assert('\0' <= c <= '\u{7f}');
            assert(b as char == c);
        }
        if !token_byte(b) {
            return false;
        }
        i += 1;
    }
    true
}

/// Compares two valid tokens: whether the first comes before the second
/// in dictionary order, and whether they are equal.
fn token_order(a: &str, b: &str) -> (r: (bool, bool))
    requires
        valid_token(a@),
        valid_token(b@),
    ensures
        r.0 == text_before(a@, b@),
        r.1 == (a@ == b@),
{
    proof {
        assert forall|i: int| 0 <= i < a@.len() implies '\0' <= #[trigger] a@[i] <= '\u{7f}' by {
            assert(token_char(a@[i]));
        }
        assert forall|i: int| 0 <= i < b@.len() implies '\0' <= #[trigger] b@[i] <= '\u{7f}' by {
            assert(token_char(b@[i]));
        }
    }
    let n = a.unicode_len();
    let m = b.unicode_len();
    let mut i: usize = 0;
    proof {
        assert(a@.skip(0) =~= a@);
        assert(b@.skip(0) =~= b@);
    }
    while i < n && i < m
        invariant
            n == a@.len(),
            m == b@.len(),
            a.is_ascii(),
            b.is_ascii(),
            i <= n,
            i <= m,
            a@.take(i as int) == b@.take(i as int),
            text_before(a@, b@) == text_before(a@.skip(i as int), b@.skip(i as int)),
        decreases n - i,
    {
        let x = a.get_ascii(i);
        let y = b.get_ascii(i);
        proof {
            let ca = a@[i as int];
            let cb = b@[i as int];
            assert('\0' <= ca <= '\u{7f}' && '\0' <= cb <= '\u{7f}');
            assert(x as char == ca && y as char == cb);
            assert(a@.skip(i as int)[0] == ca);
            assert(b@.skip(i as int)[0] == cb);
            assert(a@.skip(i as int).skip(1) =~= a@.skip(i as int + 1));
            assert(b@.skip(i as int).skip(1) =~= b@.skip(i as int + 1));
        }
        if x != y {
            proof {
                assert(a@ != b@);
            }
            return (x < y, false);
        }
        proof {
            assert(a@.take(i as int + 1) =~= a@.take(i as int).push(a@[i as int]));
            assert(b@.take(i as int + 1) =~= b@.take(i as int).push(b@[i as int]));
        }
        i += 1;
    }
    proof {
        if n == m {
            assert(a@.take(i as int) =~= a@);
            assert(b@.take(i as int) =~= b@);
        }
    }
    (n < m, n == m)
}

/// Joins two already capitalised segments with a dot.
pub fn dotted_path(group: &str, name: &str) -> (text: String)
    ensures
        text@ == dotted(group@, name@),
{
    proof {
        reveal_strlit(".");
    }
    let mut text = String::from_str(group);
    text.append(".");
    text.append(name);
    text
}

/// Calls `inflector::cases::pascalcase::to_pascal_case`. Trusted: the result
/// is a function of the characters of `text` alone; nothing more is claimed
/// of it.
#[verifier::external_body]
pub(crate) fn to_pascal_case(text: &str) -> (out: String)
    ensures
        out@ == pascal_case(text@),
{
    inflector::cases::pascalcase::to_pascal_case(text)
}

impl Name {
    /// Both segments are valid tokens.
    pub open spec fn wf(&self) -> bool {
        valid_token(self@.group) && valid_token(self@.name)
    }

    /// The raw `group/name` text of this name.
    pub open spec fn text(&self) -> Seq<char> {
        qualified(self@.group, self@.name)
    }

    /// Builds a name from its two segments; `None` unless both are valid
    /// tokens.
    pub fn new(group: String, name: String) -> (r: Option<Name>)
        ensures
            r is Some <==> valid_token(group@) && valid_token(name@),
            r matches Some(n) ==> n.wf() && n@.group == group@ && n@.name == name@,
    {
        if is_token(group.as_str()) && is_token(name.as_str()) {
            Some(Name { group, name })
        } else {
            None
        }
    }

    /// Parses `group/name`. Succeeds exactly on texts that consist of two
    /// valid tokens around a single slash.
    pub fn parse(text: &str) -> (r: Option<Name>)
        ensures
            r matches Some(n) ==> n.wf() && n.text() == text@,
            r is None ==> forall|g: Seq<char>, m: Seq<char>|
                valid_token(g) && valid_token(m) ==> text@ != #[trigger] qualified(g, m),
    {
        let n = text.unicode_len();
        let mut i: usize = 0;
        while i < n && text.get_char(i) != '/'
            invariant
                n == text@.len(),
                i <= n,
                forall|j: int| 0 <= j < i ==> text@[j] != '/',
            decreases n - i,
        {
            i += 1;
        }
        if i >= n {
            proof {
                assert forall|g: Seq<char>, m: Seq<char>|
                    valid_token(g) && valid_token(m) implies text@ != #[trigger] qualified(
                    g,
                    m,
                ) by {
                    if text@ == qualified(g, m) {
                        assert(qualified(g, m)[g.len() as int] == '/');
                    }
                }
            }
            return None;
        }
        let group = text.substring_char(0, i);
        let name = text.substring_char(i + 1, n);
        proof {
            assert(text@ =~= qualified(group@, name@));
            assert forall|g: Seq<char>, m: Seq<char>|
                valid_token(g) && valid_token(m) && text@ == #[trigger] qualified(
                    g,
                    m,
                ) implies g == group@ && m == name@ by {
                let q = qualified(g, m);
                assert(q[g.len() as int] == '/');
                if g.len() > i {
                    assert(q[i as int] == g[i as int]);
                    assert(token_char(g[i as int]));
                }
                assert(g.len() == i);
                assert(g =~= q.subrange(0, i as int));
                assert(m =~= q.subrange(i as int + 1, q.len() as int));
            }
        }
        if is_token(group) && is_token(name) {
            Some(Name { group: String::from_str(group), name: String::from_str(name) })
        } else {
            None
        }
    }

    /// The group segment.
    pub fn group(&self) -> (s: &str)
        ensures
            s@ == self@.group,
    {
        self.group.as_str()
    }

    /// The name segment.
    pub fn name(&self) -> (s: &str)
        ensures
            s@ == self@.name,
    {
        self.name.as_str()
    }

    /// The raw `group/name` rendering.
    pub fn as_text(&self) -> (text: String)
        ensures
            text@ == self.text(),
    {
        proof {
            reveal_strlit("/");
        }
        let mut text = self.group.clone();
        text.append("/");
        text.append(self.name.as_str());
        text
    }

    /// The capitalised dotted rendering, `Group.Name`.
    pub fn capitalized(&self) -> (text: String)
        ensures
            text@ == dotted(pascal_case(self@.group), pascal_case(self@.name)),
    {
        let group = to_pascal_case(self.group.as_str());
        let name = to_pascal_case(self.name.as_str());
        dotted_path(group.as_str(), name.as_str())
    }

    /// Whether this name comes before `other`: names are ordered by group,
    /// and within a group by name.
    pub fn precedes(&self, other: &Name) -> (r: bool)
        requires
            self.wf(),
            other.wf(),
        ensures
            r == name_before(self@, other@),
    {
        let (before, same) = token_order(self.group.as_str(), other.group.as_str());
        if before {
            true
        } else if same {
            token_order(self.name.as_str(), other.name.as_str()).0
        } else {
            false
        }
    }

    /// Segment-wise equality.
    pub fn same(&self, other: &Name) -> (r: bool)
        ensures
            r == (self@ == other@),
    {
        self.group == other.group && self.name == other.name
    }
}

/// Dictionary order is a strict total order: of two texts exactly one
/// comes before the other, unless they are equal.
pub proof fn lemma_text_order_is_total(a: Seq<char>, b: Seq<char>)
    ensures
        text_before(a, b) || a == b || text_before(b, a),
        !(text_before(a, b) && text_before(b, a)),
        a == b ==> !text_before(a, b),
    decreases a.len(),
{
    if a.len() > 0 && b.len() > 0 && a[0] == b[0] {
        lemma_text_order_is_total(a.skip(1), b.skip(1));
        if a.skip(1) == b.skip(1) {
            assert(a =~= seq![a[0]] + a.skip(1));
            assert(b =~= seq![b[0]] + b.skip(1));
        }
        if a == b {
            assert(a.skip(1) == b.skip(1));
        }
    } else if a.len() == 0 && b.len() == 0 {
        assert(a =~= b);
    }
}

/// Names are totally ordered: of two names exactly one comes before the
/// other, unless they are the same name.
pub proof fn lemma_name_order_is_total(a: NameView, b: NameView)
    ensures
        name_before(a, b) || a == b || name_before(b, a),
        !(name_before(a, b) && name_before(b, a)),
        a == b ==> !name_before(a, b),
{
    lemma_text_order_is_total(a.group, b.group);
    lemma_text_order_is_total(a.name, b.name);
}

/// Two well-formed names with the same raw text are the same name.
pub proof fn lemma_text_identifies_name(a: Name, b: Name)
    requires
        a.wf(),
        b.wf(),
        a.text() == b.text(),
    ensures
        a@ == b@,
{
    let q = a.text();
    let (ag, an) = (a@.group, a@.name);
    let (bg, bn) = (b@.group, b@.name);
    assert(q[ag.len() as int] == '/');
    assert(qualified(bg, bn)[bg.len() as int] == '/');
    if ag.len() < bg.len() {
        assert(q[ag.len() as int] == bg[ag.len() as int]);
        assert(token_char(bg[ag.len() as int]));
    }
    if bg.len() < ag.len() {
        assert(q[bg.len() as int] == ag[bg.len() as int]);
        assert(token_char(ag[bg.len() as int]));
    }
    assert(ag =~= q.subrange(0, ag.len() as int));
    assert(bg =~= q.subrange(0, bg.len() as int));
    assert(an =~= q.subrange(ag.len() as int + 1, q.len() as int));
    assert(bn =~= q.subrange(bg.len() as int + 1, q.len() as int));
}

} // verus!
