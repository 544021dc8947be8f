use crate::error::EntityTagParseError;
use vstd::prelude::*;

verus! {

/// The three characters that open the textual form of a weak entity tag: `W/"`.
pub open spec fn weak_prefix() -> Seq<char> {
    seq!['W', '/', '"']
}

/// Whether `s` is accepted as the textual form of an entity tag: at least four
/// characters, of which the first three are `W/"` and the last is `"`.
pub open spec fn is_tag_text(s: Seq<char>) -> bool {
    s.len() >= 4 && s.subrange(0, 3) == weak_prefix() && s[s.len() - 1] == '"'
}

/// The value carried by an accepted tag text: everything strictly between the
/// opening `W/"` and the final `"`.
pub open spec fn tag_value_of(s: Seq<char>) -> Seq<char> {
    s.subrange(3, s.len() - 1)
}

/// The canonical textual form of a tag with value `v`: `W/"<v>"`.
pub open spec fn tag_text_of(v: Seq<char>) -> Seq<char> {
    weak_prefix() + v + seq!['"']
}

/// A weak HTTP cache validator, compared by its value only.
#[derive(Debug)]
pub struct EntityTag {
    tag: String,
}

impl View for EntityTag {
    type V = Seq<char>;

    closed spec fn view(&self) -> Seq<char> {
        self.tag@
    }
}

/// The values of an optional tag.
pub open spec fn opt_tag_view(t: Option<EntityTag>) -> Option<Seq<char>> {
    match t {
        Some(tag) => Some(tag@),
        None => None,
    }
}

/// A copy of an optional tag.
pub fn copy_opt_tag(t: &Option<EntityTag>) -> (r: Option<EntityTag>)
    ensures
        opt_tag_view(r) == opt_tag_view(*t),
{
    match t {
        Some(tag) => Some(tag.copy()),
        None => None,
    }
}

impl EntityTag {
    /// A tag with the given value.
    pub fn new(value: &str) -> (r: EntityTag)
        ensures
            r@ == value@,
    {
        EntityTag { tag: String::from_str(value) }
    }

    /// The value of the tag, without the `W/"` and `"` around it.
    pub fn value(&self) -> (r: &str)
        ensures
            r@ == self@,
    {
        self.tag.as_str()
    }

    /// A tag with the same value.
    pub fn copy(&self) -> (r: EntityTag)
        ensures
            r@ == self@,
    {
        EntityTag { tag: String::from_str(self.tag.as_str()) }
    }

    /// Whether two tags have the same value.
    pub fn same_as(&self, other: &EntityTag) -> (r: bool)
        ensures
            r == (self@ == other@),
    {
        let a = self.tag.as_str();
        let b = other.tag.as_str();
        let n = a.unicode_len();
        if n != b.unicode_len() {
            return false;
        }
        let mut i: usize = 0;
        while i < n
            invariant
                n == a@.len(),
                n == b@.len(),
                a@ == self@,
                b@ == other@,
                i <= n,
                forall|j: int| 0 <= j < i ==> a@[j] == b@[j],
            decreases n - i,
        {
            if a.get_char(i) != b.get_char(i) {
                return false;
            }
            i = i + 1;
        }
        assert(a@ =~= b@);
        true
    }

    /// Parses the textual form `W/"<value>"`. The text must be at least four
    /// characters long, start with `W/"` and end with `"`; the value is what
    /// lies between them.
    pub fn from_str(slice: &str) -> (r: Result<EntityTag, EntityTagParseError>)
        ensures
            r is Ok <==> is_tag_text(slice@),
            r matches Ok(t) ==> t@ == tag_value_of(slice@),
    {
        let length = slice.unicode_len();
        if length >= 4 && slice.get_char(0) == 'W' && slice.get_char(1) == '/'
            && slice.get_char(2) == '"' && slice.get_char(length - 1) == '"' {
            assert(slice@.subrange(0, 3) =~= weak_prefix());
            Ok(EntityTag { tag: String::from_str(slice.substring_char(3, length - 1)) })
        } else {
            proof {
                if slice@.len() >= 4 && slice@.subrange(0, 3) == weak_prefix() {
                    assert(slice@[0] == slice@.subrange(0, 3)[0]);
                    assert(slice@[1] == slice@.subrange(0, 3)[1]);
                    assert(slice@[2] == slice@.subrange(0, 3)[2]);
                }
            }
            Err(EntityTagParseError)
        }
    }

    /// The canonical textual form `W/"<value>"`.
    pub fn to_string(&self) -> (r: String)
        ensures
            r@ == tag_text_of(self@),
    {
        let open = "W/\"";
        let close = "\"";
        proof {
            reveal_strlit("W/\"");
            reveal_strlit("\"");
        }
        let r = String::from_str(open).concat(self.tag.as_str()).concat(close);
        assert(open@ =~= weak_prefix());
        assert(close@ =~= seq!['"']);
        r
    }
}

/// Formatting a tag and parsing the text again gives back the same value,
/// for every value that holds no `"`.
pub proof fn lemma_tag_round_trip(v: Seq<char>)
    requires
        forall|i: int| 0 <= i < v.len() ==> v[i] != '"',
    ensures
        is_tag_text(tag_text_of(v)),
        tag_value_of(tag_text_of(v)) == v,
{
    let s = tag_text_of(v);
    assert(s.subrange(0, 3) =~= weak_prefix());
    assert(s.subrange(3, s.len() - 1) =~= v);
}

/// Parsing an accepted text and formatting the tag again gives back the text.
pub proof fn lemma_tag_text_round_trip(s: Seq<char>)
    requires
        is_tag_text(s),
    ensures
        tag_text_of(tag_value_of(s)) == s,
{
    assert(tag_text_of(tag_value_of(s)) =~= s) by {
        assert forall|i: int| 0 <= i < 3 implies s[i] == weak_prefix()[i] by {
            assert(s.subrange(0, 3)[i] == s[i]);
        }
    }
}

/// Text shorter than four characters, not starting with `W/"`, or not
/// ending with `"`, is never a tag.
pub proof fn lemma_tag_rejects(s: Seq<char>)
    requires
        s.len() < 4 || s.subrange(0, 3) != weak_prefix() || s[s.len() - 1] != '"',
    ensures
        !is_tag_text(s),
{
}

} // verus!
