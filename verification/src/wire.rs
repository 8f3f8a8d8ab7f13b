use vstd::prelude::*;
use vstd::string::StringSliceAdditionalSpecFns;
use crate::command::BulkRequestCommand;
use crate::command::BulkRequestError;
use crate::command::Document;
use crate::command::Field;

verus! {

/// The decimal digits of `n`, most significant first, as ASCII.
pub open spec fn decimal(n: nat) -> Seq<u8>
    decreases n,
{
    if n < 10 {
        seq![(48 + n) as u8]
    } else {
        decimal(n / 10).push((48 + n % 10) as u8)
    }
}

/// One member as it stands inside the payload: name, colon, value, comma.
pub open spec fn field_bytes(field: Field) -> Seq<u8> {
    field.key@ + ":".spec_bytes() + field.value@ + ",".spec_bytes()
}

/// The members in order, each followed by a comma.
pub open spec fn fields_bytes(fields: Seq<Field>) -> Seq<u8>
    decreases fields.len(),
{
    if fields.len() == 0 {
        Seq::empty()
    } else {
        fields_bytes(fields.drop_last()) + field_bytes(fields.last())
    }
}

/// The five version stamps that close every inserted payload.
pub open spec fn stamp_bytes(ctid: u64, cmin: u32, cmax: u32, xmin: u64, xmax: u64) -> Seq<u8> {
    "\"zdb_ctid\":".spec_bytes() + decimal(ctid as nat)
        + ",\"zdb_cmin\":".spec_bytes() + decimal(cmin as nat)
        + ",\"zdb_cmax\":".spec_bytes() + decimal(cmax as nat)
        + ",\"zdb_xmin\":".spec_bytes() + decimal(xmin as nat)
        + ",\"zdb_xmax\":".spec_bytes() + decimal(xmax as nat)
}

/// The action line of an insert.
pub open spec fn insert_action(ctid: u64) -> Seq<u8> {
    "{\"index\":{\"_id\":".spec_bytes() + decimal(ctid as nat) + "}}\n".spec_bytes()
}

/// The payload line of an insert: the document's members, then the stamps.
pub open spec fn insert_source(
    document: Document,
    ctid: u64,
    cmin: u32,
    cmax: u32,
    xmin: u64,
    xmax: u64,
) -> Seq<u8> {
    "{".spec_bytes() + fields_bytes(document.fields@) + stamp_bytes(ctid, cmin, cmax, xmin, xmax)
        + "}\n".spec_bytes()
}

/// The action line of an update: a partial update that is retried once on conflict.
pub open spec fn update_action(ctid: u64) -> Seq<u8> {
    "{\"update\":{\"_id\":".spec_bytes() + decimal(ctid as nat)
        + ",\"retry_on_conflict\":1}}\n".spec_bytes()
}

/// The script line of an update: it sets the two end-of-life stamps and nothing else.
pub open spec fn update_script(cmax: u32, xmax: u64) -> Seq<u8> {
    "{\"script\":{\"lang\":\"painless\",\"params\":{\"CMAX\":".spec_bytes() + decimal(cmax as nat)
        + ",\"XMAX\":".spec_bytes() + decimal(xmax as nat)
        + "},\"source\":\"ctx._source.zdb_cmax=params.CMAX;ctx._source.zdb_xmax=params.XMAX;\"}}\n".spec_bytes()
}

/// Whether the encoder has an encoding for the command.
pub open spec fn is_supported(command: BulkRequestCommand) -> bool {
    command is Insert || command is Update
}

/// The two lines that a supported command becomes; empty for the others.
pub open spec fn command_bytes(command: BulkRequestCommand) -> Seq<u8> {
    match command {
        BulkRequestCommand::Insert { ctid, cmin, cmax, xmin, xmax, document } => insert_action(ctid)
            + insert_source(document, ctid, cmin, cmax, xmin, xmax),
        BulkRequestCommand::Update { ctid, cmax, xmax } => update_action(ctid) + update_script(
            cmax,
            xmax,
        ),
        _ => Seq::empty(),
    }
}

/// Appends the bytes of `text`.
pub fn push_text(buf: &mut Vec<u8>, text: &str)
    ensures
        final(buf)@ == old(buf)@ + text.spec_bytes(),
{
    push_bytes(buf, text.as_bytes());
}

/// Appends `bytes`.
pub fn push_bytes(buf: &mut Vec<u8>, bytes: &[u8])
    ensures
        final(buf)@ == old(buf)@ + bytes@,
{
    let mut i: usize = 0;
    while i < bytes.len()
        invariant
            i <= bytes.len(),
            buf@ == old(buf)@ + bytes@.take(i as int),
        decreases bytes.len() - i,
    {
        buf.push(bytes[i]);
        i += 1;
        assert(bytes@.take(i as int) == bytes@.take(i - 1).push(bytes@[i - 1]));
    }
    assert(bytes@.take(i as int) == bytes@);
}

/// Appends the decimal digits of `n`.
pub fn push_decimal(buf: &mut Vec<u8>, n: u64)
    ensures
        final(buf)@ == old(buf)@ + decimal(n as nat),
    decreases n,
{
    if n >= 10 {
        push_decimal(buf, n / 10);
    }
    let d: u8 = (n % 10) as u8;
    buf.push(48 + d);
    assert(buf@ =~= old(buf)@ + decimal(n as nat));
}

/// Appends the members of `document`, each followed by a comma.
pub fn push_fields(buf: &mut Vec<u8>, document: &Document)
    ensures
        final(buf)@ == old(buf)@ + fields_bytes(document.fields@),
{
    let mut i: usize = 0;
    assert(document.fields@.take(0) =~= Seq::<Field>::empty());
    while i < document.fields.len()
        invariant
            i <= document.fields.len(),
            buf@ == old(buf)@ + fields_bytes(document.fields@.take(i as int)),
        decreases document.fields.len() - i,
    {
        let ghost before = buf@;
        let field = &document.fields[i];
        push_bytes(buf, field.key.as_slice());
        push_text(buf, ":");
        push_bytes(buf, field.value.as_slice());
        push_text(buf, ",");
        i += 1;
        proof {
            let now = document.fields@.take(i as int);
            assert(now.drop_last() =~= document.fields@.take(i - 1));
            assert(now.last() == *field);
            assert(buf@ =~= before + field_bytes(*field));
            assert(buf@ =~= old(buf)@ + fields_bytes(now));
        }
    }
    assert(document.fields@.take(i as int) =~= document.fields@);
}

/// Appends the five version stamps.
pub fn push_stamps(buf: &mut Vec<u8>, ctid: u64, cmin: u32, cmax: u32, xmin: u64, xmax: u64)
    ensures
        final(buf)@ == old(buf)@ + stamp_bytes(ctid, cmin, cmax, xmin, xmax),
{
    push_text(buf, "\"zdb_ctid\":");
    push_decimal(buf, ctid);
    push_text(buf, ",\"zdb_cmin\":");
    push_decimal(buf, cmin as u64);
    push_text(buf, ",\"zdb_cmax\":");
    push_decimal(buf, cmax as u64);
    push_text(buf, ",\"zdb_xmin\":");
    push_decimal(buf, xmin);
    push_text(buf, ",\"zdb_xmax\":");
    push_decimal(buf, xmax);
    assert(buf@ =~= old(buf)@ + stamp_bytes(ctid, cmin, cmax, xmin, xmax));
}

/// Appends the two lines of `command` to `buffer`. A command without an
/// encoding is refused and leaves the buffer as it was.
pub fn serialize_command(buffer: &mut Vec<u8>, command: &BulkRequestCommand) -> (out: Result<
    (),
    BulkRequestError,
>)
    ensures
        is_supported(*command) ==> out is Ok && final(buffer)@ == old(buffer)@ + command_bytes(
            *command,
        ),
        !is_supported(*command) ==> out == Err::<(), BulkRequestError>(
            BulkRequestError::UnsupportedCommand,
        ) && final(buffer)@ == old(buffer)@,
{
    match command {
        BulkRequestCommand::Insert { ctid, cmin, cmax, xmin, xmax, document } => {
            push_text(buffer, "{\"index\":{\"_id\":");
            push_decimal(buffer, *ctid);
            push_text(buffer, "}}\n");
            assert(buffer@ =~= old(buffer)@ + insert_action(*ctid));
            let ghost mid = buffer@;
            push_text(buffer, "{");
            push_fields(buffer, document);
            push_stamps(buffer, *ctid, *cmin, *cmax, *xmin, *xmax);
            push_text(buffer, "}\n");
            assert(buffer@ =~= mid + insert_source(*document, *ctid, *cmin, *cmax, *xmin, *xmax));
            assert(buffer@ =~= old(buffer)@ + command_bytes(*command));
            Ok(())
        },
        BulkRequestCommand::Update { ctid, cmax, xmax } => {
            push_text(buffer, "{\"update\":{\"_id\":");
            push_decimal(buffer, *ctid);
            push_text(buffer, ",\"retry_on_conflict\":1}}\n");
            assert(buffer@ =~= old(buffer)@ + update_action(*ctid));
            let ghost mid = buffer@;
            push_text(buffer, "{\"script\":{\"lang\":\"painless\",\"params\":{\"CMAX\":");
            push_decimal(buffer, *cmax as u64);
            push_text(buffer, ",\"XMAX\":");
            push_decimal(buffer, *xmax);
            push_text(
                buffer,
                "},\"source\":\"ctx._source.zdb_cmax=params.CMAX;ctx._source.zdb_xmax=params.XMAX;\"}}\n",
            );
            assert(buffer@ =~= mid + update_script(*cmax, *xmax));
            assert(buffer@ =~= old(buffer)@ + command_bytes(*command));
            Ok(())
        },
        _ => Err(BulkRequestError::UnsupportedCommand),
    }
}

} // verus!
