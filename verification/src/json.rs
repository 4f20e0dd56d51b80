//! The JSON text of the payload: strings as serde_json writes them, and the
//! objects and the list that are framed around them.
//!
//! The frames are built and proved here. The strings are serde_json's:
//! `json_string` names what it writes, and `quote` is taken on trust.

use vstd::prelude::*;

verus! {

/// The JSON string that serde_json writes for `text`: the text between double
/// quotes, with an escape in place of each character that JSON does not take
/// as it is.
pub uninterp spec fn json_string(text: Seq<char>) -> Seq<char>;

/// The object of one record, made of the five members in their fixed order;
/// each argument is the JSON text of that member's value.
pub open spec fn record_frame(
    arg: Seq<char>,
    quicklookurl: Seq<char>,
    subtitle: Seq<char>,
    title: Seq<char>,
    uid: Seq<char>,
) -> Seq<char> {
    "{\"arg\":"@ + arg + ",\"quicklookurl\":"@ + quicklookurl + ",\"subtitle\":"@ + subtitle
        + ",\"title\":"@ + title + ",\"uid\":"@ + uid + "}"@
}

/// The texts of `parts` in their order, with a comma between each two.
pub open spec fn comma_joined(parts: Seq<Seq<char>>) -> Seq<char>
    decreases parts.len(),
{
    if parts.len() == 0 {
        Seq::empty()
    } else if parts.len() == 1 {
        parts[0]
    } else {
        comma_joined(parts.drop_last()) + seq![','] + parts.last()
    }
}

/// The whole payload: an object whose one member `items` is the list of
/// `records`, each the JSON text of one record.
pub open spec fn items_frame(records: Seq<Seq<char>>) -> Seq<char> {
    "{\"items\":["@ + comma_joined(records) + "]}"@
}

/// `serde_json::to_string` on a text. It cannot fail there: a text has no map
/// keys and its `Serialize` never gives up, and the bytes go to memory. The
/// result is named, not spelled out: the escapes are serde_json's.
#[verifier::external_body]
pub(crate) fn quote(text: &str) -> (quoted: String)
    ensures
        quoted@ == json_string(text@),
{
    serde_json::to_string(text).unwrap()
}

/// Frames the object of one record around the JSON texts of its five values.
pub fn frame_record(arg: &str, quicklookurl: &str, subtitle: &str, title: &str, uid: &str) -> (text:
    String)
    ensures
        text@ == record_frame(arg@, quicklookurl@, subtitle@, title@, uid@),
{
    let mut text = String::new();
    text.append("{\"arg\":");
    text.append(arg);
    text.append(",\"quicklookurl\":");
    text.append(quicklookurl);
    text.append(",\"subtitle\":");
    text.append(subtitle);
    text.append(",\"title\":");
    text.append(title);
    text.append(",\"uid\":");
    text.append(uid);
    text.append("}");
    text
}

/// Frames the payload around the JSON texts of its records.
pub fn frame_items(records: &Vec<String>) -> (text: String)
    ensures
        text@ == items_frame(records.deep_view()),
{
    let ghost parts = records.deep_view();
    let mut text = String::new();
    text.append("{\"items\":[");
    let mut i: usize = 0;
    while i < records.len()
        invariant
            i <= records.len(),
            parts == records.deep_view(),
            text@ == "{\"items\":["@ + comma_joined(parts.subrange(0, i as int)),
        decreases records.len() - i,
    {
        if i > 0 {
            text.push(',');
        }
        text.append(records[i].as_str());
        proof {
            let before = parts.subrange(0, i as int);
            let after = parts.subrange(0, i + 1);
            assert(after.drop_last() == before);
        }
        i += 1;
    }
    text.append("]}");
    assert(parts.subrange(0, i as int) == parts);
    text
}

} // verus!
