//! The JSON text of a flat object: one whose members are all strings.

use vstd::prelude::*;

verus! {

/// The JSON string literal that serde_json writes for `text`: the text
/// between double quotes, with the characters that JSON does not take as they
/// are written as escapes.
pub uninterp spec fn json_string(text: Seq<char>) -> Seq<char>;

/// Calls `serde_json::to_string` on a string slice. The contract claims that
/// what comes back depends on the characters of `text` alone, and that the
/// call does not fail: for a string, serde_json writes the literal into a byte
/// vector in memory, which takes every write.
#[verifier::external_body]
fn json_string_of(text: &str) -> (literal: String)
    ensures
        literal@ == json_string(text@),
{
    serde_json::to_string(text).unwrap_or_default()
}

/// A member of a flat object: its key and its value.
pub type MemberView = (Seq<char>, Seq<char>);

/// The JSON text of one member: key, colon, value.
pub open spec fn json_member(member: MemberView) -> Seq<char> {
    json_string(member.0) + ":"@ + json_string(member.1)
}

/// The JSON text of `members`, in their order, with commas between them.
pub open spec fn json_members(members: Seq<MemberView>) -> Seq<char>
    decreases members.len(),
{
    if members.len() == 0 {
        Seq::empty()
    } else if members.len() == 1 {
        json_member(members[0])
    } else {
        json_members(members.drop_last()) + ","@ + json_member(members.last())
    }
}

/// The JSON text of the object that holds `members`, in their order, without
/// any white space.
pub open spec fn json_object(members: Seq<MemberView>) -> Seq<char> {
    "{"@ + json_members(members) + "}"@
}

/// The models of a list of members.
pub open spec fn member_views(members: Seq<(String, String)>) -> Seq<MemberView> {
    Seq::new(members.len(), |i: int| (members[i].0@, members[i].1@))
}

/// Writes the object that holds `members` as JSON text.
pub fn render_object(members: &Vec<(String, String)>) -> (text: String)
    ensures
        text@ == json_object(member_views(members@)),
{
    let ghost views = member_views(members@);
    let mut text = String::from_str("{");
    let mut i: usize = 0;
    while i < members.len()
        invariant
            i <= members@.len(),
            views == member_views(members@),
            text@ == "{"@ + json_members(views.take(i as int)),
        decreases members.len() - i,
    {
        if i > 0 {
            text.append(",");
        }
        text.append(json_string_of(members[i].0.as_str()).as_str());
        text.append(":");
        text.append(json_string_of(members[i].1.as_str()).as_str());
        proof {
            let upto = views.take(i + 1);
            assert(upto.drop_last() == views.take(i as int));
        }
        i += 1;
    }
    assert(views.take(i as int) == views);
    text.append("}");
    text
}

} // verus!
