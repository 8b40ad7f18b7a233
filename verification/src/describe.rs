//! Composition of the description cell and of the joined tag list.

use vstd::prelude::*;
use vstd::string::StringExecFns;

verus! {

/// The text of an optional field, absent when the field is absent.
pub open spec fn opt_text(o: Option<String>) -> Option<Seq<char>> {
    match o {
        Some(s) => Some(s@),
        None => None,
    }
}

/// The composed description cell: the description when present, then — when a
/// url is present — a space, "URL: ", the url and the matched text directly
/// juxtaposed, and a newline; then, when an exploit note is present,
/// "Exploit: " and the note; and the literal "None" when all of that is empty.
pub open spec fn described(
    description: Option<Seq<char>>,
    url: Option<Seq<char>>,
    text: Seq<char>,
    exploit: Option<Seq<char>>,
) -> Seq<char> {
    let base = match description {
        Some(d) => d,
        None => Seq::<char>::empty(),
    };
    let with_url = match url {
        Some(u) => base + " URL: "@ + u + text + "\n"@,
        None => base,
    };
    let with_exploit = match exploit {
        Some(e) => with_url + "Exploit: "@ + e,
        None => with_url,
    };
    if with_exploit.len() == 0 {
        "None"@
    } else {
        with_exploit
    }
}

/// Build the description cell of one record.
pub fn compose_description(
    description: &Option<String>,
    url: &Option<String>,
    text: &str,
    exploit: &Option<String>,
) -> (r: String)
    ensures
        r@ == described(opt_text(*description), opt_text(*url), text@, opt_text(*exploit)),
{
    let mut r: String = match description {
        Some(d) => d.as_str().to_owned(),
        None => String::new(),
    };
    if let Some(u) = url {
        r.append(" URL: ");
        r.append(u.as_str());
        r.append(text);
        r.append("\n");
    }
    if let Some(e) = exploit {
        r.append("Exploit: ");
        r.append(e.as_str());
    }
    if r.as_str().is_empty() {
        r = "None".to_owned();
    }
    r
}

/// A record with no description, no url and no exploit gets the literal
/// description "None", whatever its matched text.
pub proof fn lemma_absent_description(text: Seq<char>)
    ensures
        described(None, None, text, None) == "None"@,
{
}

/// With only a description present, the cell is that description as it is —
/// or "None" when the description itself is the empty text.
pub proof fn lemma_description_alone(d: Seq<char>, text: Seq<char>)
    ensures
        d.len() > 0 ==> described(Some(d), None, text, None) == d,
        d.len() == 0 ==> described(Some(d), None, text, None) == "None"@,
{
}

/// The reference link puts the url and the matched text directly side by
/// side, with no separator between them.
pub proof fn lemma_url_juxtaposition(u: Seq<char>, text: Seq<char>)
    ensures
        described(None, Some(u), text, None) == " URL: "@ + u + text + "\n"@,
{
    reveal_strlit("\n");
    assert(Seq::<char>::empty() + " URL: "@ + u + text + "\n"@ =~= " URL: "@ + u + text
        + "\n"@);
}

/// The given texts joined with ", " between consecutive ones, in their
/// original order.
pub open spec fn joined(tags: Seq<Seq<char>>) -> Seq<char>
    decreases tags.len(),
{
    if tags.len() == 0 {
        Seq::<char>::empty()
    } else if tags.len() == 1 {
        tags[0]
    } else {
        tags[0] + ", "@ + joined(tags.drop_first())
    }
}

/// Joining one more tag appends it after a ", " separator — except to an
/// empty list, which it becomes.
pub proof fn lemma_join_step(tags: Seq<Seq<char>>, tag: Seq<char>)
    ensures
        tags.len() == 0 ==> joined(tags.push(tag)) == tag,
        tags.len() > 0 ==> joined(tags.push(tag)) == joined(tags) + ", "@ + tag,
    decreases tags.len(),
{
    let p = tags.push(tag);
    if tags.len() == 0 {
        assert(p[0] == tag);
    } else {
        assert(p.drop_first() =~= tags.drop_first().push(tag));
        lemma_join_step(tags.drop_first(), tag);
        if tags.len() == 1 {
            assert(joined(p) == p[0] + ", "@ + joined(p.drop_first()));
            assert(p[0] == tags[0]);
        } else {
            assert(joined(p) =~= joined(tags) + ", "@ + tag);
        }
    }
}

/// Join the tags of one record with ", ".
pub fn join_tags(tags: &Vec<String>) -> (r: String)
    ensures
        r@ == joined(tags@.map_values(|t: String| t@)),
{
    let ghost m = tags@.map_values(|t: String| t@);
    let mut r = String::new();
    let mut i: usize = 0;
    while i < tags.len()
        invariant
            i <= tags@.len(),
            m == tags@.map_values(|t: String| t@),
            r@ == joined(m.take(i as int)),
        decreases tags@.len() - i,
    {
        if i > 0 {
            r.append(", ");
        }
        r.append(tags[i].as_str());
        proof {
            lemma_join_step(m.take(i as int), m[i as int]);
            assert(m.take(i as int).push(m[i as int]) =~= m.take(i as int + 1));
        }
        i = i + 1;
    }
    proof {
        assert(m.take(tags@.len() as int) =~= m);
    }
    r
}

} // verus!
