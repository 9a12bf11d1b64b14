//! The JSON line.

use vstd::prelude::*;
use crate::decimal::{append_decimal, decimal, decimal_denotes};
use crate::lines::{is_single_line, joined_is_single_line};
use crate::record::{LogRecord, RecordView};

verus! {

/// One member of the JSON object: `"<key>":"<value>"`.  The value is written
/// as it is, without escaping, so that a value with a quotation mark in it
/// does not give valid JSON.
pub open spec fn json_field(key: Seq<char>, value: Seq<char>) -> Seq<char> {
    "\""@ + key + "\":\""@ + value + "\""@
}

/// The members of an object, one after the other with a comma between them.
pub open spec fn json_fields(members: Seq<(Seq<char>, Seq<char>)>) -> Seq<char>
    decreases members.len(),
{
    if members.len() == 0 {
        Seq::empty()
    } else if members.len() == 1 {
        json_field(members[0].0, members[0].1)
    } else {
        json_fields(members.drop_last()) + ","@ + json_field(members.last().0, members.last().1)
    }
}

/// The object with the given members, on one line.
pub open spec fn json_object(members: Seq<(Seq<char>, Seq<char>)>) -> Seq<char> {
    "{"@ + json_fields(members) + "}"@
}

/// What the JSON line says of a record stamped `ts`: the level in lower
/// case, the timestamp, the logger, the caller as `<file>:<line>` and the
/// message, under these five keys and in this order.
pub open spec fn json_members(ts: Seq<char>, record: RecordView) -> Seq<(Seq<char>, Seq<char>)> {
    seq![
        ("level"@, record.level.lower_name()),
        ("ts"@, ts),
        ("logger"@, record.logger()),
        ("caller"@, record.caller()),
        ("msg"@, record.message),
    ]
}

/// The JSON line of a record stamped `ts`.
pub open spec fn json_text(ts: Seq<char>, record: RecordView) -> Seq<char> {
    json_object(json_members(ts, record))
}

/// The JSON line written out member by member.
pub proof fn json_text_unfolds(ts: Seq<char>, record: RecordView)
    ensures
        json_text(ts, record) == "{"@ + json_field("level"@, record.level.lower_name()) + ","@
            + json_field("ts"@, ts) + ","@ + json_field("logger"@, record.logger()) + ","@
            + json_field("caller"@, record.caller()) + ","@ + json_field("msg"@, record.message)
            + "}"@,
{
    let all = json_members(ts, record);
    let four = all.drop_last();
    let three = four.drop_last();
    let two = three.drop_last();
    let one = two.drop_last();
    assert(json_fields(one) == json_field("level"@, record.level.lower_name()));
    assert(json_fields(two) == json_fields(one) + ","@ + json_field("ts"@, ts));
    assert(json_fields(three) == json_fields(two) + ","@ + json_field("logger"@, record.logger()));
    assert(json_fields(four) == json_fields(three) + ","@ + json_field(
        "caller"@,
        record.caller(),
    ));
    assert(json_fields(all) == json_fields(four) + ","@ + json_field("msg"@, record.message));
    let flat = "{"@ + json_field("level"@, record.level.lower_name()) + ","@ + json_field("ts"@, ts)
        + ","@ + json_field("logger"@, record.logger()) + ","@ + json_field(
        "caller"@,
        record.caller(),
    ) + ","@ + json_field("msg"@, record.message) + "}"@;
    assert(json_text(ts, record) =~= flat);
}

/// For every severity and every record, the JSON line is an object of
/// exactly five members whose keys are `level`, `ts`, `logger`, `caller` and
/// `msg`, in this order, and the value under `level` is the severity's name
/// in lower-case letters.
pub proof fn json_line_has_five_members(ts: Seq<char>, record: RecordView)
    ensures
        json_text(ts, record) == json_object(json_members(ts, record)),
        json_members(ts, record).len() == 5,
        json_members(ts, record).map_values(|member: (Seq<char>, Seq<char>)| member.0) == seq![
            "level"@,
            "ts"@,
            "logger"@,
            "caller"@,
            "msg"@,
        ],
        json_members(ts, record)[0].1 == record.level.lower_name(),
        forall|i: int|
            0 <= i < record.level.lower_name().len() ==> crate::level::is_lower_letter(
                #[trigger] record.level.lower_name()[i],
            ),
        json_members(ts, record)[1].1 == ts,
        json_members(ts, record)[4].1 == record.message,
{
    let keys = json_members(ts, record).map_values(|member: (Seq<char>, Seq<char>)| member.0);
    assert(keys =~= seq!["level"@, "ts"@, "logger"@, "caller"@, "msg"@]);
    record.level.lower_name_is_lower_case();
}

/// A record that names neither its module nor its file and line appears in
/// the JSON line with the logger `<unnamed>` and the caller `<unnamed>:0`.
pub proof fn json_line_of_unlocated_record(ts: Seq<char>, record: RecordView)
    requires
        record.module is None,
        record.file is None,
        record.line is None,
    ensures
        json_members(ts, record)[2] == ("logger"@, "<unnamed>"@),
        json_members(ts, record)[3] == ("caller"@, "<unnamed>:0"@),
{
    reveal_strlit("<unnamed>");
    reveal_strlit("<unnamed>:0");
    reveal_strlit(":");
    assert(decimal(0) =~= seq!['0']);
    assert(record.caller() =~= "<unnamed>:0"@);
}

/// The JSON line holds no line break if the timestamp and the record's
/// logger, file and message hold none.
pub proof fn json_text_is_single_line(ts: Seq<char>, record: RecordView)
    requires
        is_single_line(ts),
        is_single_line(record.logger()),
        is_single_line(record.source_file()),
        is_single_line(record.message),
    ensures
        is_single_line(json_text(ts, record)),
{
    assert forall|front: Seq<char>, back: Seq<char>|
        is_single_line(front) && is_single_line(back) implies is_single_line(
        #[trigger] (front + back),
    ) by {
        joined_is_single_line(front, back);
    }
    reveal_strlit("{");
    reveal_strlit("}");
    reveal_strlit(",");
    reveal_strlit(":");
    reveal_strlit("\"");
    reveal_strlit("\":\"");
    reveal_strlit("level");
    reveal_strlit("ts");
    reveal_strlit("logger");
    reveal_strlit("caller");
    reveal_strlit("msg");
    decimal_denotes(record.source_line());
    assert(is_single_line(decimal(record.source_line())));
    assert(is_single_line(record.caller()));
    assert(is_single_line(record.level.lower_name()));
    assert(is_single_line(json_field("level"@, record.level.lower_name())));
    assert(is_single_line(json_field("ts"@, ts)));
    assert(is_single_line(json_field("logger"@, record.logger())));
    assert(is_single_line(json_field("caller"@, record.caller())));
    assert(is_single_line(json_field("msg"@, record.message)));
    json_text_unfolds(ts, record);
}

/// Appends one member of the JSON object to `out`.
fn append_field(out: &mut String, key: &str, value: &str)
    ensures
        final(out)@ == old(out)@ + json_field(key@, value@),
{
    out.append("\"");
    out.append(key);
    out.append("\":\"");
    out.append(value);
    out.append("\"");
    assert(out@ =~= old(out)@ + json_field(key@, value@));
}

/// Renders `record`, stamped `ts`, as a JSON line.
pub fn render_json(ts: &str, record: &LogRecord) -> (line: String)
    ensures
        line@ == json_text(ts@, record@),
{
    let mut caller = String::from_str(record.source_file());
    caller.append(":");
    append_decimal(&mut caller, record.source_line());
    assert(caller@ =~= record@.caller());

    let mut line = String::from_str("{");
    append_field(&mut line, "level", record.level.as_lower_str());
    line.append(",");
    append_field(&mut line, "ts", ts);
    line.append(",");
    append_field(&mut line, "logger", record.logger());
    line.append(",");
    append_field(&mut line, "caller", caller.as_str());
    line.append(",");
    append_field(&mut line, "msg", record.message.as_str());
    line.append("}");
    proof {
        json_text_unfolds(ts@, record@);
    }
    assert(line@ =~= json_text(ts@, record@));
    line
}

} // verus!
