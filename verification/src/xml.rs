//! A minimal XML element tree: the document form that the notification
//! builder produces, together with its ghost model and a text serializer.

use vstd::prelude::*;

verus! {

/// Ghost model of an XML element: name, attributes in output order,
/// text content, and child elements.
#[verifier::ext_equal]
pub struct SpecElem {
    pub name: Seq<char>,
    pub attrs: Seq<(Seq<char>, Seq<char>)>,
    pub text: Seq<char>,
    pub children: Seq<SpecElem>,
}

impl SpecElem {
    /// A childless, attribute-less element with the given name.
    pub open spec fn leaf(name: Seq<char>) -> SpecElem {
        SpecElem { name, attrs: Seq::empty(), text: Seq::empty(), children: Seq::empty() }
    }
}

/// An XML element under construction: a name, an ordered attribute list,
/// text content (empty when the element holds none) and child elements.
#[derive(Debug, PartialEq, Eq)]
pub struct XmlElem {
    pub name: String,
    pub attrs: Vec<(String, String)>,
    pub text: String,
    pub children: Vec<XmlElem>,
}

impl View for XmlElem {
    type V = SpecElem;

    open spec fn view(&self) -> SpecElem
        decreases *self,
    {
        SpecElem {
            name: self.name@,
            attrs: Seq::new(self.attrs.len() as nat, |i: int| (self.attrs[i].0@, self.attrs[i].1@)),
            text: self.text@,
            children: Seq::new(
                self.children.len() as nat,
                |i: int|
                    if 0 <= i < self.children.len() {
                        self.children[i]@
                    } else {
                        SpecElem::leaf(Seq::empty())
                    },
            ),
        }
    }
}

/// The given element with one more attribute at the end of its list.
pub open spec fn with_attr(e: SpecElem, name: Seq<char>, value: Seq<char>) -> SpecElem {
    SpecElem { attrs: e.attrs.push((name, value)), ..e }
}

/// The given element with one more child at the end of its list.
pub open spec fn with_child(e: SpecElem, c: SpecElem) -> SpecElem {
    SpecElem { children: e.children.push(c), ..e }
}

impl XmlElem {
    /// A fresh element with the given name and nothing else.
    pub fn new_elem(name: &str) -> (r: XmlElem)
        ensures
            r@ == SpecElem::leaf(name@),
    {
        let r = XmlElem {
            name: String::from_str(name),
            attrs: Vec::new(),
            text: String::new(),
            children: Vec::new(),
        };
        proof {
            assert(r@.attrs =~~= Seq::<(Seq<char>, Seq<char>)>::empty());
            assert(r@.children =~~= Seq::<SpecElem>::empty());
            assert(r@ =~~= SpecElem::leaf(name@));
        }
        r
    }

    /// Appends one attribute to the element's attribute list.
    pub fn push_attr(&mut self, name: &str, value: &str)
        ensures
            final(self)@ == with_attr(old(self)@, name@, value@),
    {
        self.attrs.push((String::from_str(name), String::from_str(value)));
        proof {
            assert(self@ =~~= with_attr(old(self)@, name@, value@));
        }
    }

    /// Appends one child element.
    pub fn push_child(&mut self, c: XmlElem)
        ensures
            final(self)@ == with_child(old(self)@, c@),
    {
        let ghost cv = c@;
        self.children.push(c);
        proof {
            assert(forall|i: int|
                0 <= i < old(self).children@.len() ==> self.children@[i] == old(
                    self,
                ).children@[i]);
            assert(self@.children =~~= old(self)@.children.push(cv));
            assert(self@ =~~= with_child(old(self)@, cv));
        }
    }

    /// Sets the element's text content.
    pub fn set_text(&mut self, t: &str)
        ensures
            final(self)@ == (SpecElem { text: t@, ..old(self)@ }),
    {
        self.text = String::from_str(t);
        proof {
            assert(self@ =~~= (SpecElem { text: t@, ..old(self)@ }));
        }
    }
}

/// Relies on String::push: appends one character to the end of the string.
#[verifier::external_body]
fn push_char(s: &mut String, c: char)
    ensures
        final(s)@ == old(s)@.push(c),
{
    s.push(c);
}

/// How one character of text content or of an attribute value appears in
/// serialized output.
pub open spec fn spec_escape_char(c: char) -> Seq<char> {
    if c == '&' {
        seq!['&', 'a', 'm', 'p', ';']
    } else if c == '<' {
        seq!['&', 'l', 't', ';']
    } else if c == '>' {
        seq!['&', 'g', 't', ';']
    } else if c == '"' {
        seq!['&', 'q', 'u', 'o', 't', ';']
    } else {
        seq![c]
    }
}

/// Character data with the XML metacharacters replaced by entities.
pub open spec fn spec_escape(s: Seq<char>) -> Seq<char>
    decreases s.len(),
{
    if s.len() == 0 {
        Seq::empty()
    } else {
        spec_escape(s.drop_last()) + spec_escape_char(s.last())
    }
}

/// Appends the escaped form of `s` to `out`.
fn escape_into(out: &mut String, s: &str)
    ensures
        final(out)@ == old(out)@ + spec_escape(s@),
{
    let n = s.unicode_len();
    let ghost sv = s@;
    proof {
        assert(out@ =~= old(out)@ + spec_escape(sv.take(0)));
    }
    for i in 0..n
        invariant
            n == sv.len(),
            sv == s@,
            out@ == old(out)@ + spec_escape(sv.take(i as int)),
    {
        let c = s.get_char(i);
        if c == '&' {
            out.append("&amp;");
            proof {
                reveal_strlit("&amp;");
            }
        } else if c == '<' {
            out.append("&lt;");
            proof {
                reveal_strlit("&lt;");
            }
        } else if c == '>' {
            out.append("&gt;");
            proof {
                reveal_strlit("&gt;");
            }
        } else if c == '"' {
            out.append("&quot;");
            proof {
                reveal_strlit("&quot;");
            }
        } else {
            push_char(out, c);
        }
        proof {
            assert(sv.take(i + 1).drop_last() =~= sv.take(i as int));
            assert(sv.take(i + 1).last() == c);
            assert(out@ =~= old(out)@ + spec_escape(sv.take(i + 1)));
        }
    }
    proof {
        assert(sv.take(n as int) =~= sv);
    }
}

/// The character for one decimal digit.
pub open spec fn spec_digit(d: nat) -> char {
    if d == 0 {
        '0'
    } else if d == 1 {
        '1'
    } else if d == 2 {
        '2'
    } else if d == 3 {
        '3'
    } else if d == 4 {
        '4'
    } else if d == 5 {
        '5'
    } else if d == 6 {
        '6'
    } else if d == 7 {
        '7'
    } else if d == 8 {
        '8'
    } else {
        '9'
    }
}

/// Decimal digits of a number, most significant first; empty for zero.
pub open spec fn spec_dec(n: nat) -> Seq<char>
    decreases n,
{
    if n == 0 {
        Seq::empty()
    } else {
        spec_dec(n / 10).push(spec_digit(n % 10))
    }
}

/// The decimal text of a number: `"0"` for zero, its digits otherwise.
pub open spec fn spec_u32_str(n: nat) -> Seq<char> {
    if n == 0 {
        seq!['0']
    } else {
        spec_dec(n)
    }
}

fn digit_char(d: u32) -> (c: char)
    requires
        d < 10,
    ensures
        c == spec_digit(d as nat),
{
    match d {
        0 => '0',
        1 => '1',
        2 => '2',
        3 => '3',
        4 => '4',
        5 => '5',
        6 => '6',
        7 => '7',
        8 => '8',
        _ => '9',
    }
}

/// The decimal text of a number, for use as an attribute value.
pub fn u32_to_string(n: u32) -> (r: String)
    ensures
        r@ == spec_u32_str(n as nat),
{
    if n == 0 {
        let r = String::from_str("0");
        proof {
            reveal_strlit("0");
            assert(r@ =~= seq!['0']);
        }
        return r;
    }
    let mut digits: Vec<char> = Vec::new();
    let mut m = n;
    proof {
        assert(spec_dec(n as nat) =~= spec_dec(n as nat) + digits@);
    }
    while m > 0
        invariant
            spec_dec(n as nat) == spec_dec(m as nat) + digits@,
        decreases m,
    {
        let ghost pre = digits@;
        let d = m % 10;
        digits.insert(0, digit_char(d));
        proof {
            assert(digits@ =~= seq![spec_digit((m % 10) as nat)] + pre);
            assert(spec_dec(m as nat) =~= spec_dec((m / 10) as nat).push(
                spec_digit((m % 10) as nat),
            ));
            assert(spec_dec((m / 10) as nat) + digits@ =~= spec_dec(m as nat) + pre);
        }
        m = m / 10;
    }
    let mut out = String::new();
    proof {
        assert(spec_dec(n as nat) =~= digits@);
        assert(out@ =~= digits@.take(0));
    }
    for i in 0..digits.len()
        invariant
            out@ == digits@.take(i as int),
            digits@ == spec_dec(n as nat),
    {
        push_char(&mut out, digits[i]);
        proof {
            assert(digits@.take(i + 1) =~= digits@.take(i as int).push(digits@[i as int]));
        }
    }
    proof {
        assert(digits@.take(digits@.len() as int) =~= digits@);
    }
    out
}

/// The value of the first attribute with the given name, if any.
pub open spec fn spec_attr_value(attrs: Seq<(Seq<char>, Seq<char>)>, name: Seq<char>) -> Option<
    Seq<char>,
>
    decreases attrs.len(),
{
    if attrs.len() == 0 {
        None
    } else if attrs.first().0 == name {
        Some(attrs.first().1)
    } else {
        spec_attr_value(attrs.drop_first(), name)
    }
}

/// How many elements of the list carry the given name.
pub open spec fn spec_count_named(cs: Seq<SpecElem>, name: Seq<char>) -> int
    decreases cs.len(),
{
    if cs.len() == 0 {
        0
    } else {
        spec_count_named(cs.drop_last(), name) + if cs.last().name == name {
            1int
        } else {
            0int
        }
    }
}

/// Serialized form of one attribute: a leading space, the name, `="`, the
/// escaped value, and a closing quote.
pub open spec fn spec_attr_text(a: (Seq<char>, Seq<char>)) -> Seq<char> {
    seq![' '] + a.0 + seq!['=', '"'] + spec_escape(a.1) + seq!['"']
}

/// Serialized form of an attribute list.
pub open spec fn spec_attrs_text(attrs: Seq<(Seq<char>, Seq<char>)>) -> Seq<char>
    decreases attrs.len(),
{
    if attrs.len() == 0 {
        Seq::empty()
    } else {
        spec_attrs_text(attrs.drop_last()) + spec_attr_text(attrs.last())
    }
}

/// Serialized form of an element: self-closing when it has neither text nor
/// children, otherwise an open tag, the escaped text, the children, and a
/// close tag.
pub open spec fn spec_xml(e: SpecElem) -> Seq<char>
    decreases e,
{
    let head = seq!['<'] + e.name + spec_attrs_text(e.attrs);
    if e.text.len() == 0 && e.children.len() == 0 {
        head + seq!['/', '>']
    } else {
        head + seq!['>'] + spec_escape(e.text) + spec_xml_seq(e.children) + seq!['<', '/'] + e.name
            + seq!['>']
    }
}

/// Serialized forms of a list of sibling elements, in order.
pub open spec fn spec_xml_seq(cs: Seq<SpecElem>) -> Seq<char>
    decreases cs,
{
    if cs.len() == 0 {
        Seq::empty()
    } else {
        spec_xml_seq(cs.drop_last()) + spec_xml(cs.last())
    }
}

impl XmlElem {
    /// Appends the serialized form of this element to `out`.
    fn write_xml(&self, out: &mut String)
        ensures
            final(out)@ == old(out)@ + spec_xml(self@),
        decreases *self,
    {
        let ghost ev = self@;
        out.append("<");
        out.append(self.name.as_str());
        proof {
            reveal_strlit("<");
            assert(out@ =~= old(out)@ + seq!['<'] + ev.name + spec_attrs_text(ev.attrs.take(0)));
        }
        for i in 0..self.attrs.len()
            invariant
                ev == self@,
                out@ == old(out)@ + seq!['<'] + ev.name + spec_attrs_text(ev.attrs.take(i as int)),
        {
            out.append(" ");
            out.append(self.attrs[i].0.as_str());
            out.append("=\"");
            escape_into(out, self.attrs[i].1.as_str());
            out.append("\"");
            proof {
                reveal_strlit(" ");
                reveal_strlit("=\"");
                reveal_strlit("\"");
                assert(ev.attrs.take(i + 1).drop_last() =~= ev.attrs.take(i as int));
                assert(ev.attrs.take(i + 1).last() == ev.attrs[i as int]);
                assert(out@ =~= old(out)@ + seq!['<'] + ev.name + spec_attrs_text(
                    ev.attrs.take(i + 1),
                ));
            }
        }
        proof {
            assert(ev.attrs.take(ev.attrs.len() as int) =~= ev.attrs);
        }
        if self.text.as_str().is_empty() && self.children.len() == 0 {
            out.append("/>");
            proof {
                reveal_strlit("/>");
                assert(out@ =~= old(out)@ + spec_xml(ev));
            }
        } else {
            out.append(">");
            proof {
                reveal_strlit(">");
            }
            escape_into(out, self.text.as_str());
            proof {
                assert(out@ =~= old(out)@ + seq!['<'] + ev.name + spec_attrs_text(ev.attrs)
                    + seq!['>'] + spec_escape(ev.text) + spec_xml_seq(ev.children.take(0)));
            }
            for i in 0..self.children.len()
                invariant
                    ev == self@,
                    out@ == old(out)@ + seq!['<'] + ev.name + spec_attrs_text(ev.attrs)
                        + seq!['>'] + spec_escape(ev.text) + spec_xml_seq(
                        ev.children.take(i as int),
                    ),
                decreases self.children.len() - i,
            {
                self.children[i].write_xml(out);
                proof {
                    assert(ev.children.take(i + 1).drop_last() =~= ev.children.take(i as int));
                    assert(ev.children.take(i + 1).last() == ev.children[i as int]);
                    assert(out@ =~= old(out)@ + seq!['<'] + ev.name + spec_attrs_text(ev.attrs)
                        + seq!['>'] + spec_escape(ev.text) + spec_xml_seq(ev.children.take(i + 1)));
                }
            }
            proof {
                assert(ev.children.take(ev.children.len() as int) =~= ev.children);
            }
            out.append("</");
            out.append(self.name.as_str());
            out.append(">");
            proof {
                reveal_strlit("</");
                reveal_strlit(">");
                assert(out@ =~= old(out)@ + spec_xml(ev));
            }
        }
    }

    /// The serialized text of this element.
    pub fn to_xml(&self) -> (r: String)
        ensures
            r@ == spec_xml(self@),
    {
        let mut out = String::new();
        self.write_xml(&mut out);
        proof {
            assert(out@ =~= spec_xml(self@));
        }
        out
    }
}

} // verus!
