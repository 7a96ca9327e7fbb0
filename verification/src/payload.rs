//! The notification content and its wire form.
//!
//! On the wire a notification is one JSON object. Its first member, `aps`,
//! holds the content as a nested object; the custom data follows under
//! `custom_key`. A field that is unset is left out. `WireDocument` is that
//! object as a value, `render_document` its text, and `encode` writes the text.

use crate::error::PushError;
use crate::json::{
    json_string, lemma_render_members_concat, lemma_render_members_push, member_value,
    render_member, render_members, render_object, render_tail, write_number_member, write_string,
    write_text_member, JsonMember, JsonScalar,
};
use crate::reading::{lemma_object_unique, lemma_same_rest, lemma_tail_unique};
use vstd::prelude::*;

verus! {

/// What the device is asked to show or do.
#[derive(Debug, Clone, PartialEq, Eq)]
pub struct Aps {
    /// The alert message.
    pub alert: String,
    /// Whether new content is available: 0 or 1.
    pub content_available: u8,
    /// The number to show as the badge of the app icon.
    pub badge: Option<u32>,
    /// The name of the sound to play.
    pub sound: Option<String>,
    /// The category of the notification.
    pub category: Option<String>,
    /// The thread that groups the notification with others.
    pub thread_id: Option<String>,
}

/// The whole payload of one notification.
#[derive(Debug, Clone, PartialEq, Eq)]
pub struct ApnsPayload {
    /// The notification content.
    pub aps: Aps,
    /// Custom data that travels beside the content.
    pub custom_key: Option<String>,
}

/// A notification as the gateway reads it: the members of the nested object
/// under `aps`, and the members that follow it.
pub struct WireDocument {
    pub aps: Seq<JsonMember>,
    pub rest: Seq<JsonMember>,
}

/// The text of a document.
pub open spec fn render_document(document: WireDocument) -> Seq<char> {
    seq!['{'] + json_string("aps"@) + seq![':'] + render_object(document.aps) + render_tail(
        document.rest,
    ) + seq!['}']
}

/// The value of a number that may be unset.
pub open spec fn number_value(value: Option<u32>) -> Option<JsonScalar> {
    match value {
        Some(n) => Some(JsonScalar::Number(n as nat)),
        None => None,
    }
}

/// The value of a string that may be unset.
pub open spec fn text_value(value: Option<String>) -> Option<JsonScalar> {
    match value {
        Some(s) => Some(JsonScalar::Text(s@)),
        None => None,
    }
}

/// No member where the value is unset, else the one member that carries it.
pub open spec fn optional_member(key: Seq<char>, value: Option<JsonScalar>) -> Seq<JsonMember> {
    match value {
        Some(v) => seq![JsonMember { key, value: v }],
        None => Seq::empty(),
    }
}

impl Aps {
    /// The flag is a flag: the wire form knows no other value than 0 and 1.
    pub open spec fn well_formed(&self) -> bool {
        self.content_available <= 1
    }

    /// The member that carries the alert.
    pub open spec fn alert_member(&self) -> JsonMember {
        JsonMember { key: "alert"@, value: JsonScalar::Text(self.alert@) }
    }

    /// The member that carries the flag, under its wire name.
    pub open spec fn flag_member(&self) -> JsonMember {
        JsonMember {
            key: "content-available"@,
            value: JsonScalar::Number(self.content_available as nat),
        }
    }

    /// The members of the nested object, in the order in which they are
    /// written: the alert and the flag always, the others where they are set.
    pub open spec fn members(&self) -> Seq<JsonMember> {
        seq![self.alert_member(), self.flag_member()] + optional_member(
            "badge"@,
            number_value(self.badge),
        ) + optional_member("sound"@, text_value(self.sound)) + optional_member(
            "category"@,
            text_value(self.category),
        ) + optional_member("thread-id"@, text_value(self.thread_id))
    }
}

impl ApnsPayload {
    /// A payload is well formed when its content is.
    pub open spec fn well_formed(&self) -> bool {
        self.aps.well_formed()
    }

    /// The payload as the gateway reads it.
    pub open spec fn document(&self) -> WireDocument {
        WireDocument {
            aps: self.aps.members(),
            rest: optional_member("custom_key"@, text_value(self.custom_key)),
        }
    }

    /// The wire form of the payload.
    pub open spec fn wire_text(&self) -> Seq<char> {
        render_document(self.document())
    }
}

/// A comma and a member appended are the text of the one member that an
/// optional value gives where it is set.
proof fn lemma_optional_tail(head: Seq<char>, key: Seq<char>, value: JsonScalar)
    ensures
        head + seq![','] + render_member(JsonMember { key, value }) == head + render_tail(
            optional_member(key, Some(value)),
        ),
{
    let m = JsonMember { key, value };
    assert(optional_member(key, Some(value)) == seq![m]);
    assert(head + seq![','] + render_member(m) == head + (seq![','] + render_member(m)));
}

/// Appends, after a comma, the member that carries `value`, where it is set.
fn write_optional_text(out: &mut String, key: &str, value: &Option<String>)
    ensures
        final(out)@ == old(out)@ + render_tail(optional_member(key@, text_value(*value))),
{
    match value {
        Some(s) => {
            write_text_member(out, false, key, s.as_str());
            proof {
                lemma_optional_tail(old(out)@, key@, JsonScalar::Text(s@));
            }
        },
        None => {
            assert(old(out)@ + Seq::<char>::empty() == old(out)@);
        },
    }
}

/// Appends, after a comma, the member that carries `value`, where it is set.
fn write_optional_number(out: &mut String, key: &str, value: Option<u32>)
    ensures
        final(out)@ == old(out)@ + render_tail(optional_member(key@, number_value(value))),
{
    match value {
        Some(n) => {
            write_number_member(out, false, key, n as u64);
            proof {
                lemma_optional_tail(old(out)@, key@, JsonScalar::Number(n as nat));
            }
        },
        None => {
            assert(old(out)@ + Seq::<char>::empty() == old(out)@);
        },
    }
}

/// The text of the members of the nested object, piece by piece in the order of
/// writing.
proof fn lemma_members_text(aps: Aps)
    ensures
        render_members(aps.members()) == render_member(aps.alert_member()) + seq![',']
            + render_member(aps.flag_member()) + render_tail(
            optional_member("badge"@, number_value(aps.badge)),
        ) + render_tail(optional_member("sound"@, text_value(aps.sound))) + render_tail(
            optional_member("category"@, text_value(aps.category)),
        ) + render_tail(optional_member("thread-id"@, text_value(aps.thread_id))),
{
    let fixed = seq![aps.alert_member(), aps.flag_member()];
    let badge = optional_member("badge"@, number_value(aps.badge));
    let sound = optional_member("sound"@, text_value(aps.sound));
    let category = optional_member("category"@, text_value(aps.category));
    let thread = optional_member("thread-id"@, text_value(aps.thread_id));
    assert(render_members(fixed) == render_member(aps.alert_member()) + seq![',']
        + render_member(aps.flag_member())) by {
        lemma_render_members_push(seq![aps.alert_member()], aps.flag_member());
        assert(seq![aps.alert_member()].push(aps.flag_member()) == fixed);
    }
    lemma_render_members_concat(fixed, badge);
    lemma_render_members_concat(fixed + badge, sound);
    lemma_render_members_concat(fixed + badge + sound, category);
    lemma_render_members_concat(fixed + badge + sound + category, thread);
}

/// Six pieces appended one after the other between braces are the braces
/// around the six pieces joined.
proof fn lemma_object_pieces(
    head: Seq<char>,
    a: Seq<char>,
    b: Seq<char>,
    c: Seq<char>,
    d: Seq<char>,
    e: Seq<char>,
    f: Seq<char>,
)
    ensures
        (head.push('{') + Seq::<char>::empty() + a + seq![','] + b + c + d + e + f).push('}')
            == head + (seq!['{'] + (a + seq![','] + b + c + d + e + f) + seq!['}']),
{
}

/// Appends the nested object that carries the notification content.
fn write_aps(out: &mut String, aps: &Aps)
    ensures
        final(out)@ == old(out)@ + render_object(aps.members()),
{
    out.push('{');
    write_text_member(out, true, "alert", aps.alert.as_str());
    write_number_member(out, false, "content-available", aps.content_available as u64);
    write_optional_number(out, "badge", aps.badge);
    write_optional_text(out, "sound", &aps.sound);
    write_optional_text(out, "category", &aps.category);
    write_optional_text(out, "thread-id", &aps.thread_id);
    out.push('}');
    proof {
        lemma_members_text(*aps);
        lemma_object_pieces(
            old(out)@,
            render_member(aps.alert_member()),
            render_member(aps.flag_member()),
            render_tail(optional_member("badge"@, number_value(aps.badge))),
            render_tail(optional_member("sound"@, text_value(aps.sound))),
            render_tail(optional_member("category"@, text_value(aps.category))),
            render_tail(optional_member("thread-id"@, text_value(aps.thread_id))),
        );
    }
}

/// Writes the payload in its wire form, or refuses a payload whose flag is
/// neither 0 nor 1.
pub fn encode(payload: &ApnsPayload) -> (r: Result<String, PushError>)
    ensures
        payload.well_formed() ==> (r matches Ok(text) && text@ == payload.wire_text()),
        !payload.well_formed() ==> r == Err::<String, PushError>(PushError::PayloadEncodingError),
{
    if payload.aps.content_available > 1 {
        return Err(PushError::PayloadEncodingError);
    }
    let mut out = String::new();
    out.push('{');
    write_string(&mut out, "aps");
    out.push(':');
    write_aps(&mut out, &payload.aps);
    write_optional_text(&mut out, "custom_key", &payload.custom_key);
    out.push('}');
    assert(out@ == payload.wire_text());
    Ok(out)
}

/// The value under a key in two lists joined is the value in the first, or the
/// value in the second where the first has none.
pub proof fn lemma_member_value_concat(a: Seq<JsonMember>, b: Seq<JsonMember>, key: Seq<char>)
    ensures
        member_value(a + b, key) == match member_value(a, key) {
            Some(v) => Some(v),
            None => member_value(b, key),
        },
    decreases a.len(),
{
    if a.len() == 0 {
        assert(a + b == b);
    } else {
        assert((a + b)[0] == a[0]);
        assert((a + b).drop_first() == a.drop_first() + b);
        lemma_member_value_concat(a.drop_first(), b, key);
    }
}

/// The value under a key in a list of one member at most.
proof fn lemma_optional_member_value(name: Seq<char>, value: Option<JsonScalar>, key: Seq<char>)
    ensures
        member_value(optional_member(name, value), key) == if name == key {
            value
        } else {
            None
        },
{
    let ms = optional_member(name, value);
    if value is Some {
        assert(ms[0].key == name);
        assert(ms.drop_first().len() == 0);
        assert(member_value(ms.drop_first(), key) is None);
    }
}

/// One of the keys under which the nested object can hold a member.
pub open spec fn is_wire_name(key: Seq<char>) -> bool {
    key == "alert"@ || key == "content-available"@ || key == "badge"@ || key == "sound"@ || key
        == "category"@ || key == "thread-id"@
}

/// The value that the nested object of `aps` holds under a key.
pub open spec fn wire_value(aps: Aps, key: Seq<char>) -> Option<JsonScalar> {
    if key == "alert"@ {
        Some(JsonScalar::Text(aps.alert@))
    } else if key == "content-available"@ {
        Some(JsonScalar::Number(aps.content_available as nat))
    } else if key == "badge"@ {
        number_value(aps.badge)
    } else if key == "sound"@ {
        text_value(aps.sound)
    } else if key == "category"@ {
        text_value(aps.category)
    } else if key == "thread-id"@ {
        text_value(aps.thread_id)
    } else {
        None
    }
}

/// What the nested object holds: under each wire name the field that belongs to
/// it, a member for every field that is set and none for one that is unset, and
/// nothing under any other key. The flag stands under `content-available`; the
/// name that the field has in `Aps`, `content_available`, is not a key of the
/// object.
pub proof fn lemma_wire_names(aps: Aps, key: Seq<char>)
    ensures
        member_value(aps.members(), key) == wire_value(aps, key),
        !is_wire_name("content_available"@),
        wire_value(aps, "content_available"@) is None,
        wire_value(aps, "content-available"@) == Some(
            JsonScalar::Number(aps.content_available as nat),
        ),
        wire_value(aps, "badge"@) == number_value(aps.badge),
        wire_value(aps, "sound"@) == text_value(aps.sound),
        wire_value(aps, "category"@) == text_value(aps.category),
        wire_value(aps, "thread-id"@) == text_value(aps.thread_id),
{
    reveal_strlit("alert");
    reveal_strlit("content-available");
    reveal_strlit("content_available");
    reveal_strlit("badge");
    reveal_strlit("sound");
    reveal_strlit("category");
    reveal_strlit("thread-id");
    assert("alert"@[0] != "badge"@[0]);
    assert("alert"@[0] != "sound"@[0]);
    assert("badge"@[0] != "sound"@[0]);
    assert("content-available"@[7] != "content_available"@[7]);
    assert("thread-id"@.len() == 9);
    assert("category"@.len() == 8);
    let fixed = seq![aps.alert_member(), aps.flag_member()];
    let badge = optional_member("badge"@, number_value(aps.badge));
    let sound = optional_member("sound"@, text_value(aps.sound));
    let category = optional_member("category"@, text_value(aps.category));
    let thread = optional_member("thread-id"@, text_value(aps.thread_id));
    lemma_member_value_concat(fixed + badge + sound + category, thread, key);
    lemma_member_value_concat(fixed + badge + sound, category, key);
    lemma_member_value_concat(fixed + badge, sound, key);
    lemma_member_value_concat(fixed, badge, key);
    lemma_optional_member_value("badge"@, number_value(aps.badge), key);
    lemma_optional_member_value("sound"@, text_value(aps.sound), key);
    lemma_optional_member_value("category"@, text_value(aps.category), key);
    lemma_optional_member_value("thread-id"@, text_value(aps.thread_id), key);
    assert(member_value(fixed, key) == if key == "alert"@ {
        Some(aps.alert_member().value)
    } else if key == "content-available"@ {
        Some(aps.flag_member().value)
    } else {
        None
    }) by {
        reveal_with_fuel(member_value, 3);
        assert(fixed[0] == aps.alert_member());
        assert(fixed.drop_first()[0] == aps.flag_member());
        assert(fixed.drop_first().drop_first().len() == 0);
    }
}

/// What follows the nested object: the custom data under `custom_key` where it
/// is set, no member where it is unset, and nothing under any other key.
pub proof fn lemma_custom_data(payload: ApnsPayload, key: Seq<char>)
    ensures
        member_value(payload.document().rest, key) == if key == "custom_key"@ {
            text_value(payload.custom_key)
        } else {
            None
        },
        payload.custom_key is None ==> payload.document().rest.len() == 0,
{
    lemma_optional_member_value("custom_key"@, text_value(payload.custom_key), key);
}

/// A wire text is the text of one document only.
pub proof fn lemma_document_unique(first: WireDocument, second: WireDocument)
    requires
        render_document(first) == render_document(second),
    ensures
        first == second,
{
    let head = seq!['{'] + json_string("aps"@) + seq![':'];
    let empty = Seq::<char>::empty();
    let after_1 = render_tail(first.rest) + seq!['}'] + empty;
    let after_2 = render_tail(second.rest) + seq!['}'] + empty;
    assert(render_document(first) == head + (render_object(first.aps) + after_1));
    assert(render_document(second) == head + (render_object(second.aps) + after_2));
    lemma_same_rest(head, render_object(first.aps) + after_1, render_object(second.aps) + after_2);
    lemma_object_unique(first.aps, second.aps, after_1, after_2);
    lemma_tail_unique(first.rest, second.rest, empty, empty);
}

/// Reading back what `encode` wrote gives the flag that went in. Whatever
/// document has the wire text of a well-formed payload as its text is the
/// payload's own document; what it holds under `content-available` is the
/// payload's flag, which is 0 or 1.
pub proof fn lemma_flag_round_trip(payload: ApnsPayload, read: WireDocument)
    requires
        payload.well_formed(),
        render_document(read) == payload.wire_text(),
    ensures
        read == payload.document(),
        member_value(read.aps, "content-available"@) == Some(
            JsonScalar::Number(payload.aps.content_available as nat),
        ),
        payload.aps.content_available == 0 || payload.aps.content_available == 1,
{
    lemma_document_unique(read, payload.document());
    lemma_wire_names(payload.aps, "content-available"@);
}

/// Nothing is lost in encoding: two payloads with the same wire text agree in
/// every field.
pub proof fn lemma_encoding_unique(first: ApnsPayload, second: ApnsPayload)
    requires
        first.wire_text() == second.wire_text(),
    ensures
        first.aps.alert@ == second.aps.alert@,
        first.aps.content_available == second.aps.content_available,
        first.aps.badge == second.aps.badge,
        text_value(first.aps.sound) == text_value(second.aps.sound),
        text_value(first.aps.category) == text_value(second.aps.category),
        text_value(first.aps.thread_id) == text_value(second.aps.thread_id),
        text_value(first.custom_key) == text_value(second.custom_key),
{
    lemma_document_unique(first.document(), second.document());
    lemma_wire_names(first.aps, "alert"@);
    lemma_wire_names(second.aps, "alert"@);
    lemma_wire_names(first.aps, "content-available"@);
    lemma_wire_names(second.aps, "content-available"@);
    lemma_wire_names(first.aps, "badge"@);
    lemma_wire_names(second.aps, "badge"@);
    lemma_wire_names(first.aps, "sound"@);
    lemma_wire_names(second.aps, "sound"@);
    lemma_wire_names(first.aps, "category"@);
    lemma_wire_names(second.aps, "category"@);
    lemma_wire_names(first.aps, "thread-id"@);
    lemma_wire_names(second.aps, "thread-id"@);
    lemma_custom_data(first, "custom_key"@);
    lemma_custom_data(second, "custom_key"@);
}

} // verus!
