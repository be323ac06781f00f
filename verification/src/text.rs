use vstd::prelude::*;

verus! {

/// Appends one character to a string (`String::push`).
#[verifier::external_body]
fn push_char(s: &mut String, c: char)
    ensures
        final(s)@ == old(s)@.push(c),
{
    s.push(c);
}

/// The first `n` characters of `text` (all of it when it is shorter).
pub fn first_chars(text: &str, n: usize) -> (r: String)
    ensures
        r@ == text@.take(if text@.len() < n { text@.len() as int } else { n as int }),
{
    let mut out = String::new();
    let mut count: usize = 0;
    for ch in it: text.chars()
        invariant
            count <= n,
            it.seq() == text@,
            count <= it.index(),
            count < n ==> count == it.index(),
            out@ == text@.take(count as int),
    {
        if count < n {
            push_char(&mut out, ch);
            count = count + 1;
        }
    }
    out
}


/// What Unicode lowercasing makes of a string (`str::to_lowercase`); its
/// tables are Unicode's and are not restated here.
pub uninterp spec fn lowercase(s: Seq<char>) -> Seq<char>;

/// `str::to_lowercase`: the claim is only that the result is a function of
/// the input, named `lowercase`.
#[verifier::external_body]
pub(crate) fn to_lower(s: &str) -> (r: String)
    ensures
        r@ == lowercase(s@),
{
    s.to_lowercase()
}

/// `p` is a prefix of `s`.
pub open spec fn is_prefix_of(p: Seq<char>, s: Seq<char>) -> bool {
    p.len() <= s.len() && s.subrange(0, p.len() as int) == p
}

/// The characters of a string.
pub fn chars_of(s: &str) -> (r: Vec<char>)
    ensures
        r@ == s@,
{
    let mut out: Vec<char> = Vec::new();
    for ch in it: s.chars()
        invariant
            it.seq() == s@,
            out@ == s@.take(it.index() as int),
    {
        out.push(ch);
        assert(out@ =~= s@.take(it.index() + 1));
    }
    assert(s@.take(s@.len() as int) =~= s@);
    out
}

/// Whether `prefix` is a prefix of `s`, character by character.
pub fn starts_with(s: &str, prefix: &str) -> (r: bool)
    ensures
        r == is_prefix_of(prefix@, s@),
{
    let sc = chars_of(s);
    let pc = chars_of(prefix);
    if pc.len() > sc.len() {
        return false;
    }
    let mut i: usize = 0;
    while i < pc.len()
        invariant
            pc@ == prefix@,
            sc@ == s@,
            pc@.len() <= sc@.len(),
            i <= pc@.len(),
            forall|j: int| 0 <= j < i ==> pc@[j] == sc@[j],
        decreases pc@.len() - i,
    {
        if pc[i] != sc[i] {
            assert(s@.subrange(0, prefix@.len() as int)[i as int] != prefix@[i as int]);
            return false;
        }
        i = i + 1;
    }
    assert(s@.subrange(0, prefix@.len() as int) =~= prefix@);
    true
}

/// The items of `list` joined with `sep` between neighbours.
pub open spec fn joined(list: Seq<Seq<char>>, sep: Seq<char>) -> Seq<char>
    decreases list.len(),
{
    if list.len() == 0 {
        Seq::empty()
    } else if list.len() == 1 {
        list[0]
    } else {
        joined(list.drop_last(), sep) + sep + list.last()
    }
}

/// The views of a list of strings.
pub open spec fn views(list: Seq<String>) -> Seq<Seq<char>> {
    list.map_values(|s: String| s@)
}

/// The strings of `list` joined by `", "`.
pub fn join_with_comma(list: &Vec<String>) -> (r: String)
    ensures
        r@ == joined(views(list@), ", "@),
{
    let mut out = String::new();
    let n = list.len();
    for i in 0..n
        invariant
            n == list@.len(),
            out@ == joined(views(list@).take(i as int), ", "@),
    {
        assert(views(list@).take(i + 1).drop_last() =~= views(list@).take(i as int));
        if i == 0 {
            out.append(list[i].as_str());
        } else {
            out.append(", ");
            out.append(list[i].as_str());
        }
    }
    assert(views(list@).take(n as int) =~= views(list@));
    out
}

/// What a tag list reads as: the tags joined by `", "` where there is a
/// list, else `absent`.
pub open spec fn tag_list_text_spec(list: Option<Seq<String>>, absent: Seq<char>) -> Seq<char> {
    match list {
        Some(l) => joined(views(l), ", "@),
        None => absent,
    }
}

/// The tags joined by `", "`, or `absent` where there are none on record.
pub fn tag_list_text(list: Option<&Vec<String>>, absent: &str) -> (r: String)
    ensures
        r@ == tag_list_text_spec(
            match list {
                Some(l) => Some(l@),
                None => None,
            },
            absent@,
        ),
{
    match list {
        Some(l) => join_with_comma(l),
        None => String::from_str(absent),
    }
}

} // verus!
