//! Laws of the file codec.
//!
//! - What a file is written as is consistent in itself
//!   (`lemma_written_file_consistent`).
//! - A file that was decoded can be encoded
//!   (`lemma_decoded_file_is_written`).
//! - A file that was decoded is written as a buffer that decodes to the
//!   same messages, where each field that the file holds is written as
//!   bytes that decode to it again (`lemma_file_round_trip`). Files whose
//!   definitions are stable are such files (`lemma_stable_file_settles`),
//!   and a definition is stable where none of its fields has a scale that
//!   loses (`lemma_stable_definition`).

use crate::{
    lemma_header_bytes_len, spec_header_crc, spec_read, spec_read_messages, spec_read_with,
    spec_registry_after, spec_write, spec_write_message, spec_write_messages, spec_written_header,
    DesyncPolicy, FitView,
};
use crate::protocol::{
    empty_registry, spec_crc16, spec_data_message, spec_definition_bytes,
    spec_field_definitions_bytes, spec_header_bytes, spec_header_len, spec_lossy_text,
    spec_parse_definition, spec_parse_header, spec_tag_bytes, DataMessageView,
    DefinitionMessageView, Endian, FieldDefBaseType, FitError, FitMessageHeader, FitMessageView,
};
use crate::protocol::data_field::{lemma_write_fields_len, spec_total_size, spec_write_fields};
use crate::protocol::io::{
    lemma_u16_round_trip, lemma_u32_round_trip, spec_u16_bytes, spec_u16_from, spec_u32_bytes,
};
use crate::protocol::message_type::spec_parse_message_type;
use crate::protocol::round_trip::{
    lemma_record_round_trip, lemma_stable_field, lemma_stable_layout_settles, spec_exact_profile,
    spec_settled_values, spec_stable_field, spec_stable_layout, spec_whole_scale_profile,
};
use vstd::prelude::*;

verus! {

/// A definition as decoding gives it: it counts its own fields, has no
/// developer fields, and the codes of its base types fit their five bits.
pub open spec fn spec_decoded_definition(d: DefinitionMessageView) -> bool {
    &&& d.wf()
    &&& forall|i: int| 0 <= i < d.fields.len() ==> (#[trigger] d.fields[i]).base_type.val <= 31
}

/// A definition whose fields are all stable: what bytes under it decode to
/// is written as bytes that decode to the same.
pub open spec fn spec_stable_definition(d: DefinitionMessageView) -> bool {
    spec_stable_layout(spec_parse_message_type(d.global_message_number), d.endian, d.fields)
}

/// Sixteen slots whose definitions are as decoding gives them.
pub open spec fn spec_decoded_registry(reg: Seq<Option<DefinitionMessageView>>) -> bool {
    &&& reg.len() == 16
    &&& forall|s: int|
        0 <= s < 16 && (#[trigger] reg[s]) is Some ==> spec_decoded_definition(reg[s]->0)
}

/// Sixteen slots whose definitions are as decoding gives them, and stable.
pub open spec fn spec_sound_registry(reg: Seq<Option<DefinitionMessageView>>) -> bool {
    &&& spec_decoded_registry(reg)
    &&& forall|s: int| 0 <= s < 16 && (#[trigger] reg[s]) is Some ==> spec_stable_definition(reg[s]->0)
}

/// Whether each field that a data message holds is written, in the layout
/// of the definition, as bytes that decode to it again.
pub open spec fn spec_settled_record(d: DefinitionMessageView, msg: DataMessageView) -> bool {
    spec_settled_values(msg.message_type, d.endian, d.fields, msg.values)
}

/// Whether each field that the messages hold is written as bytes that
/// decode to it again, each data message in the layout of the definition
/// that its slot holds where the message stands, in a stream whose slots
/// hold the definitions `reg` at its start.
pub open spec fn spec_settled_messages(
    msgs: Seq<FitMessageView>,
    reg: Seq<Option<DefinitionMessageView>>,
) -> bool
    decreases msgs.len(),
{
    if msgs.len() == 0 {
        true
    } else {
        &&& match msgs[0] {
            FitMessageView::Data(h, msg) => reg[h.local_num as int] is Some ==> spec_settled_record(
                reg[h.local_num as int]->0,
                msg,
            ),
            FitMessageView::Definition(_, _) => true,
        }
        &&& spec_settled_messages(msgs.skip(1), spec_registry_after(msgs[0], reg))
    }
}

/// The definition of a record that is one.
pub open spec fn spec_definition_of(m: FitMessageView) -> DefinitionMessageView {
    match m {
        FitMessageView::Definition(_, d) => d,
        FitMessageView::Data(_, _) => DefinitionMessageView {
            reserved: 0,
            endian: Endian::Little,
            global_message_number: 0,
            num_fields: 0,
            fields: Seq::empty(),
            dev_num_fields: None,
            dev_fields: None,
        },
    }
}

/// Messages whose definitions are all stable.
pub open spec fn spec_stable_messages(msgs: Seq<FitMessageView>) -> bool {
    forall|i: int|
        0 <= i < msgs.len() && (#[trigger] msgs[i]) is Definition ==> spec_stable_definition(
            spec_definition_of(msgs[i]),
        )
}

/// A definition is stable where the profile gives each of its fields a
/// meaning that loses nothing, or a whole scale in a layout whose invalid
/// pattern is not zero.
pub proof fn lemma_stable_definition(d: DefinitionMessageView)
    requires
        forall|i: int|
            0 <= i < d.fields.len() ==> spec_exact_profile(
                spec_parse_message_type(d.global_message_number),
                (#[trigger] d.fields[i]).definition_number,
            ) || spec_whole_scale_profile(
                spec_parse_message_type(d.global_message_number),
                d.fields[i],
            ),
    ensures
        spec_stable_definition(d),
{
    let m = spec_parse_message_type(d.global_message_number);
    assert forall|i: int| 0 <= i < d.fields.len() implies spec_stable_field(
        m,
        #[trigger] d.fields[i],
        d.endian,
    ) by {
        lemma_stable_field(m, d.fields[i], d.endian);
    }
}

/// A definition that was read from bytes is as decoding gives it.
pub proof fn lemma_parsed_definition(bytes: Seq<u8>, pos: int)
    requires
        spec_parse_definition(bytes, pos) is Some,
    ensures
        spec_decoded_definition(spec_parse_definition(bytes, pos)->0),
{
    let d = spec_parse_definition(bytes, pos)->0;
    assert forall|i: int| 0 <= i < d.fields.len() implies (#[trigger] d.fields[i]).base_type.val
        <= 31 by {
        let x = bytes[pos + 5 + 3 * i + 2];
        assert((x & 0x1Fu8) <= 31) by (bit_vector);
    }
}

/// A definition as decoding gives it is read back from its bytes, wherever
/// they stand.
pub proof fn lemma_definition_round_trip(d: DefinitionMessageView, bytes: Seq<u8>, pos: int)
    requires
        spec_decoded_definition(d),
        0 <= pos,
        pos + spec_definition_bytes(d).len() <= bytes.len(),
        bytes.subrange(pos, pos + spec_definition_bytes(d).len()) == spec_definition_bytes(d),
    ensures
        spec_definition_bytes(d).len() == 5 + 3 * d.num_fields,
        spec_parse_definition(bytes, pos) == Some(d),
{
    let b = spec_definition_bytes(d);
    let window = bytes.subrange(pos, pos + b.len());
    assert(b.len() == 5 + 3 * d.num_fields);
    assert forall|j: int| 0 <= j < b.len() implies bytes[pos + j] == b[j] by {
        assert(window[j] == bytes[pos + j]);
    }
    assert(bytes[pos] == b[0]);
    assert(bytes[pos + 1] == b[1]);
    assert(bytes[pos + 2] == b[2]);
    assert(bytes[pos + 3] == b[3]);
    assert(bytes[pos + 4] == b[4]);
    lemma_u16_round_trip(d.global_message_number, d.endian);
    let got = spec_parse_definition(bytes, pos)->0;
    assert(bytes.skip(pos + 2)[0] == spec_u16_bytes(d.global_message_number, d.endian)[0]);
    assert(bytes.skip(pos + 2)[1] == spec_u16_bytes(d.global_message_number, d.endian)[1]);
    assert forall|i: int| 0 <= i < d.fields.len() implies got.fields[i] == d.fields[i] by {
        let f = d.fields[i];
        FieldDefBaseType::lemma_base_type_round_trip(f.base_type);
        let flat = spec_field_definitions_bytes(d.fields);
        assert(b[5 + 3 * i] == flat[3 * i]);
        assert(b[5 + 3 * i + 1] == flat[3 * i + 1]);
        assert(b[5 + 3 * i + 2] == flat[3 * i + 2]);
        assert(bytes[pos + 5 + 3 * i] == b[5 + 3 * i]);
        assert(bytes[pos + 5 + 3 * i + 1] == b[5 + 3 * i + 1]);
        assert(bytes[pos + 5 + 3 * i + 2] == b[5 + 3 * i + 2]);
    }
    assert(got.fields =~= d.fields);
}

/// A definition that stands at `at` is read there, and the records behind
/// it follow.
proof fn lemma_definition_step(
    again: Seq<u8>,
    at: int,
    stop: int,
    reg: Seq<Option<DefinitionMessageView>>,
    h: FitMessageHeader,
    d: DefinitionMessageView,
    rest: Seq<FitMessageView>,
    policy: DesyncPolicy,
)
    requires
        0 <= at < stop,
        h.wf(),
        h.definition,
        !h.dev_fields,
        spec_decoded_definition(d),
        at + 1 + spec_definition_bytes(d).len() <= again.len(),
        again[at] == h.spec_to_bytes(),
        again.subrange(at + 1, at + 1 + spec_definition_bytes(d).len()) == spec_definition_bytes(
            d,
        ),
        spec_read_messages(
            again,
            at + 1 + spec_definition_bytes(d).len(),
            stop,
            reg.update(h.local_num as int, Some(d)),
            policy,
        ) == Ok::<Seq<FitMessageView>, FitError>(rest),
    ensures
        spec_read_messages(again, at, stop, reg, policy) == Ok::<Seq<FitMessageView>, FitError>(
            seq![FitMessageView::Definition(h, d)] + rest,
        ),
{
    FitMessageHeader::lemma_header_round_trip(h);
    lemma_definition_round_trip(d, again, at + 1);
}

/// A data record that stands at `at` is read there under the definition of
/// its slot, and the records behind it follow.
proof fn lemma_data_step(
    again: Seq<u8>,
    at: int,
    stop: int,
    reg: Seq<Option<DefinitionMessageView>>,
    h: FitMessageHeader,
    d: DefinitionMessageView,
    record: Seq<u8>,
    rest: Seq<FitMessageView>,
    policy: DesyncPolicy,
)
    requires
        0 <= at < stop,
        h.wf(),
        !h.definition,
        reg[h.local_num as int] == Some(d),
        record.len() == spec_total_size(d.fields),
        at + 1 + record.len() <= again.len(),
        again[at] == h.spec_to_bytes(),
        again.subrange(at + 1, at + 1 + record.len()) == record,
        spec_read_messages(again, at + 1 + record.len(), stop, reg, policy) == Ok::<
            Seq<FitMessageView>,
            FitError,
        >(rest),
    ensures
        spec_read_messages(again, at, stop, reg, policy) == Ok::<Seq<FitMessageView>, FitError>(
            seq![FitMessageView::Data(h, spec_data_message(d, record))] + rest,
        ),
{
    FitMessageHeader::lemma_header_round_trip(h);
}

/// The bytes from `pos` up to `end` spell the records `msgs`.
#[verifier::opaque]
spec fn spec_reads(
    bytes: Seq<u8>,
    pos: int,
    end: int,
    reg: Seq<Option<DefinitionMessageView>>,
    policy: DesyncPolicy,
    msgs: Seq<FitMessageView>,
) -> bool {
    spec_read_messages(bytes, pos, end, reg, policy) == Ok::<Seq<FitMessageView>, FitError>(msgs)
}

/// The byte at `pos` is the header of a data record whose slot holds no
/// definition.
#[verifier::opaque]
spec fn spec_orphan(bytes: Seq<u8>, pos: int, reg: Seq<Option<DefinitionMessageView>>) -> bool {
    let h = FitMessageHeader::spec_from_bytes(bytes[pos]);
    !h.definition && reg[h.local_num as int] is None
}

/// The records `msgs` are written as the bytes `body`.
#[verifier::opaque]
spec fn spec_writes(
    msgs: Seq<FitMessageView>,
    reg: Seq<Option<DefinitionMessageView>>,
    body: Seq<u8>,
) -> bool {
    spec_write_messages(msgs, reg) == Ok::<Seq<u8>, FitError>(body)
}

/// The slots hold definitions as decoding gives them.
#[verifier::opaque]
spec fn spec_decoded(reg: Seq<Option<DefinitionMessageView>>) -> bool {
    spec_decoded_registry(reg)
}

/// The fields that the records hold are written as bytes that decode to
/// them again.
#[verifier::opaque]
spec fn spec_survives(msgs: Seq<FitMessageView>, reg: Seq<Option<DefinitionMessageView>>) -> bool {
    spec_settled_messages(msgs, reg)
}

/// The slots hold stable definitions, and so do the records.
#[verifier::opaque]
spec fn spec_stable(reg: Seq<Option<DefinitionMessageView>>, msgs: Seq<FitMessageView>) -> bool {
    spec_sound_registry(reg) && spec_stable_messages(msgs)
}

/// The first of the records that are read from `pos`.
#[verifier::opaque]
spec fn spec_first_message(
    bytes: Seq<u8>,
    pos: int,
    reg: Seq<Option<DefinitionMessageView>>,
) -> FitMessageView {
    let h = FitMessageHeader::spec_from_bytes(bytes[pos]);
    if h.definition {
        FitMessageView::Definition(h, spec_parse_definition(bytes, pos + 1)->0)
    } else {
        let d = reg[h.local_num as int]->0;
        FitMessageView::Data(
            h,
            spec_data_message(d, bytes.subrange(pos + 1, pos + 1 + spec_total_size(d.fields))),
        )
    }
}

/// The bytes that the first of the records read from `pos` is written as.
#[verifier::opaque]
spec fn spec_first_piece(
    bytes: Seq<u8>,
    pos: int,
    reg: Seq<Option<DefinitionMessageView>>,
) -> Seq<u8> {
    spec_write_message(spec_first_message(bytes, pos, reg), reg)->Ok_0
}

/// What the slots hold behind the first of the records read from `pos`.
#[verifier::opaque]
spec fn spec_first_registry(
    bytes: Seq<u8>,
    pos: int,
    reg: Seq<Option<DefinitionMessageView>>,
) -> Seq<Option<DefinitionMessageView>> {
    spec_registry_after(spec_first_message(bytes, pos, reg), reg)
}

/// The bytes that records are written as.
#[verifier::opaque]
spec fn spec_written(msgs: Seq<FitMessageView>, reg: Seq<Option<DefinitionMessageView>>) -> Seq<
    u8,
> {
    spec_write_messages(msgs, reg)->Ok_0
}

/// Records are written as one sequence of bytes, and no other.
proof fn lemma_written_is_one(
    msgs: Seq<FitMessageView>,
    reg: Seq<Option<DefinitionMessageView>>,
    body: Seq<u8>,
)
    requires
        spec_writes(msgs, reg, body),
    ensures
        body == spec_written(msgs, reg),
{
    reveal(spec_writes);
    reveal(spec_written);
}

/// A data record whose slot holds no definition is passed over, where
/// records are read at all: the records are those behind its header byte.
proof fn lemma_read_skips(
    bytes: Seq<u8>,
    pos: int,
    end: int,
    reg: Seq<Option<DefinitionMessageView>>,
    policy: DesyncPolicy,
    msgs: Seq<FitMessageView>,
)
    requires
        0 <= pos < end,
        spec_reads(bytes, pos, end, reg, policy, msgs),
        spec_orphan(bytes, pos, reg),
    ensures
        pos < bytes.len(),
        spec_reads(bytes, pos + 1, end, reg, policy, msgs),
{
    reveal(spec_reads);
    reveal(spec_orphan);
}

/// Reading records that are there to read is reading the first and then
/// the rest; the first is written in as many bytes as it was read from.
proof fn lemma_read_unfolds(
    bytes: Seq<u8>,
    pos: int,
    end: int,
    reg: Seq<Option<DefinitionMessageView>>,
    policy: DesyncPolicy,
    msgs: Seq<FitMessageView>,
)
    requires
        0 <= pos < end,
        spec_reads(bytes, pos, end, reg, policy, msgs),
        spec_decoded(reg),
        !spec_orphan(bytes, pos, reg),
    ensures
        msgs.len() > 0,
        msgs[0] == spec_first_message(bytes, pos, reg),
        spec_first_piece(bytes, pos, reg).len() > 0,
        pos + spec_first_piece(bytes, pos, reg).len() <= bytes.len(),
        spec_reads(
            bytes,
            pos + spec_first_piece(bytes, pos, reg).len(),
            end,
            spec_first_registry(bytes, pos, reg),
            policy,
            msgs.skip(1),
        ),
        spec_decoded(spec_first_registry(bytes, pos, reg)),
{
    reveal(spec_reads);
    reveal(spec_orphan);
    reveal(spec_decoded);
    reveal(spec_first_message);
    reveal(spec_first_piece);
    reveal(spec_first_registry);
    let h = FitMessageHeader::spec_from_bytes(bytes[pos]);
    FitMessageHeader::lemma_from_bytes_wf(bytes[pos]);
    let first = spec_first_message(bytes, pos, reg);
    let reg2 = spec_registry_after(first, reg);
    if h.definition {
        lemma_parsed_definition(bytes, pos + 1);
        let d = spec_parse_definition(bytes, pos + 1)->0;
        assert(spec_definition_bytes(d).len() == 5 + 3 * d.num_fields);
        let rest = spec_read_messages(bytes, pos + 6 + 3 * d.num_fields, end, reg2, policy)->Ok_0;
        assert(msgs == seq![first] + rest);
        assert(msgs.skip(1) =~= rest);
        assert(msgs[0] == first);
    } else {
        let d = reg[h.local_num as int]->0;
        let n = spec_total_size(d.fields);
        let b = bytes.subrange(pos + 1, pos + 1 + n);
        let msg = spec_data_message(d, b);
        lemma_write_fields_len(msg.values, msg.message_type, d.endian, d.fields);
        let rest = spec_read_messages(bytes, pos + 1 + n, end, reg, policy)->Ok_0;
        assert(msgs == seq![first] + rest);
        assert(msgs.skip(1) =~= rest);
        assert(msgs[0] == first);
    }
}

/// Where the fields of records survive, those of the records behind the
/// first do.
proof fn lemma_survives_unfolds(
    bytes: Seq<u8>,
    pos: int,
    reg: Seq<Option<DefinitionMessageView>>,
    msgs: Seq<FitMessageView>,
)
    requires
        msgs.len() > 0,
        msgs[0] == spec_first_message(bytes, pos, reg),
        spec_survives(msgs, reg),
    ensures
        spec_survives(msgs.skip(1), spec_first_registry(bytes, pos, reg)),
{
    reveal(spec_survives);
    reveal(spec_first_registry);
}

/// Where the definitions of the slots are stable, and the fields of the
/// records behind the first survive, the fields of all the records do.
proof fn lemma_stable_unfolds(
    bytes: Seq<u8>,
    pos: int,
    end: int,
    reg: Seq<Option<DefinitionMessageView>>,
    policy: DesyncPolicy,
    msgs: Seq<FitMessageView>,
)
    requires
        0 <= pos < end,
        spec_reads(bytes, pos, end, reg, policy, msgs),
        spec_stable(reg, msgs),
        !spec_orphan(bytes, pos, reg),
        spec_survives(msgs.skip(1), spec_first_registry(bytes, pos, reg)),
    ensures
        spec_survives(msgs, reg),
{
    reveal(spec_stable);
    assert(spec_decoded(reg)) by {
        reveal(spec_decoded);
    }
    lemma_read_unfolds(bytes, pos, end, reg, policy, msgs);
    reveal(spec_reads);
    reveal(spec_orphan);
    reveal(spec_survives);
    reveal(spec_first_message);
    reveal(spec_first_registry);
    let h = FitMessageHeader::spec_from_bytes(bytes[pos]);
    FitMessageHeader::lemma_from_bytes_wf(bytes[pos]);
    if !h.definition {
        let d = reg[h.local_num as int]->0;
        let n = spec_total_size(d.fields);
        let b = bytes.subrange(pos + 1, pos + 1 + n);
        assert(spec_stable_definition(d));
        lemma_stable_layout_settles(
            spec_parse_message_type(d.global_message_number),
            d.endian,
            d.fields,
            b,
        );
    }
}

/// Where nothing is left to read, nothing is read, and nothing is written
/// as nothing.
proof fn lemma_read_nothing(
    bytes: Seq<u8>,
    pos: int,
    end: int,
    reg: Seq<Option<DefinitionMessageView>>,
    policy: DesyncPolicy,
    msgs: Seq<FitMessageView>,
)
    requires
        pos >= end,
        spec_reads(bytes, pos, end, reg, policy, msgs),
    ensures
        msgs == Seq::<FitMessageView>::empty(),
        spec_writes(msgs, reg, Seq::<u8>::empty()),
        spec_survives(msgs, reg),
{
    reveal(spec_reads);
    reveal(spec_writes);
    reveal(spec_survives);
}

/// Up to where the bytes stand, nothing is read.
proof fn lemma_reread_nothing(
    again: Seq<u8>,
    at: int,
    reg: Seq<Option<DefinitionMessageView>>,
    policy: DesyncPolicy,
)
    ensures
        spec_reads(again, at, at, reg, policy, Seq::<FitMessageView>::empty()),
{
    reveal(spec_reads);
}

/// Writing records is writing the first and then the rest.
proof fn lemma_write_unfolds(
    bytes: Seq<u8>,
    pos: int,
    end: int,
    reg: Seq<Option<DefinitionMessageView>>,
    policy: DesyncPolicy,
    msgs: Seq<FitMessageView>,
    rest_body: Seq<u8>,
)
    requires
        0 <= pos < end,
        spec_reads(bytes, pos, end, reg, policy, msgs),
        spec_decoded(reg),
        !spec_orphan(bytes, pos, reg),
        spec_writes(msgs.skip(1), spec_first_registry(bytes, pos, reg), rest_body),
    ensures
        spec_writes(msgs, reg, spec_first_piece(bytes, pos, reg) + rest_body),
{
    lemma_read_unfolds(bytes, pos, end, reg, policy, msgs);
    reveal(spec_reads);
    reveal(spec_orphan);
    reveal(spec_decoded);
    reveal(spec_writes);
    reveal(spec_first_message);
    reveal(spec_first_piece);
    reveal(spec_first_registry);
    let h = FitMessageHeader::spec_from_bytes(bytes[pos]);
    FitMessageHeader::lemma_from_bytes_wf(bytes[pos]);
    if h.definition {
        lemma_parsed_definition(bytes, pos + 1);
    }
}

/// What the first of the records that were read is, and what it is written
/// as: its header byte, and behind it the bytes of a definition as decoding
/// gives it, or the bytes of a record that spell the data message again
/// under the definition of its slot.
proof fn lemma_first_shape(
    bytes: Seq<u8>,
    pos: int,
    end: int,
    reg: Seq<Option<DefinitionMessageView>>,
    policy: DesyncPolicy,
    msgs: Seq<FitMessageView>,
)
    requires
        0 <= pos < end,
        spec_reads(bytes, pos, end, reg, policy, msgs),
        spec_decoded(reg),
        spec_survives(msgs, reg),
        !spec_orphan(bytes, pos, reg),
    ensures
        ({
            let h = FitMessageHeader::spec_from_bytes(bytes[pos]);
            let first = spec_first_message(bytes, pos, reg);
            let piece = spec_first_piece(bytes, pos, reg);
            let d = reg[h.local_num as int]->0;
            &&& piece.len() > 0
            &&& piece[0] == h.spec_to_bytes()
            &&& h.definition ==> {
                &&& !h.dev_fields
                &&& first == FitMessageView::Definition(h, spec_definition_of(first))
                &&& spec_decoded_definition(spec_definition_of(first))
                &&& piece.skip(1) == spec_definition_bytes(spec_definition_of(first))
                &&& spec_first_registry(bytes, pos, reg) == reg.update(
                    h.local_num as int,
                    Some(spec_definition_of(first)),
                )
            }
            &&& !h.definition ==> {
                &&& reg[h.local_num as int] is Some
                &&& piece.skip(1).len() == spec_total_size(d.fields)
                &&& first == FitMessageView::Data(h, spec_data_message(d, piece.skip(1)))
                &&& spec_first_registry(bytes, pos, reg) == reg
            }
        }),
{
    lemma_read_unfolds(bytes, pos, end, reg, policy, msgs);
    reveal(spec_reads);
    reveal(spec_orphan);
    reveal(spec_decoded);
    reveal(spec_survives);
    reveal(spec_first_message);
    reveal(spec_first_piece);
    reveal(spec_first_registry);
    let h = FitMessageHeader::spec_from_bytes(bytes[pos]);
    FitMessageHeader::lemma_from_bytes_wf(bytes[pos]);
    let piece = spec_first_piece(bytes, pos, reg);
    if h.definition {
        let d = spec_parse_definition(bytes, pos + 1)->0;
        lemma_parsed_definition(bytes, pos + 1);
        let db = spec_definition_bytes(d);
        assert(piece == seq![h.spec_to_bytes()] + db);
        assert(piece.skip(1) =~= db);
    } else {
        let d = reg[h.local_num as int]->0;
        let n = spec_total_size(d.fields);
        let b = bytes.subrange(pos + 1, pos + 1 + n);
        let msg = spec_data_message(d, b);
        let mt = spec_parse_message_type(d.global_message_number);
        assert(spec_settled_record(d, msg));
        lemma_record_round_trip(mt, d.endian, d.fields, b);
        let record = spec_write_fields(msg.values, mt, d.endian, d.fields);
        assert(piece == seq![h.spec_to_bytes()] + record);
        assert(piece.skip(1) =~= record);
        assert(spec_data_message(d, record) == msg);
    }
}

/// The first record that was read is read again from the bytes that it is
/// written as, and the records behind it follow.
proof fn lemma_reread_first(
    bytes: Seq<u8>,
    pos: int,
    end: int,
    reg: Seq<Option<DefinitionMessageView>>,
    policy: DesyncPolicy,
    msgs: Seq<FitMessageView>,
    again: Seq<u8>,
    at: int,
    stop: int,
)
    requires
        0 <= pos < end,
        spec_reads(bytes, pos, end, reg, policy, msgs),
        spec_decoded(reg),
        spec_survives(msgs, reg),
        !spec_orphan(bytes, pos, reg),
        0 <= at < stop,
        at + spec_first_piece(bytes, pos, reg).len() <= again.len(),
        again.subrange(at, at + spec_first_piece(bytes, pos, reg).len()) == spec_first_piece(
            bytes,
            pos,
            reg,
        ),
        spec_reads(
            again,
            at + spec_first_piece(bytes, pos, reg).len(),
            stop,
            spec_first_registry(bytes, pos, reg),
            policy,
            msgs.skip(1),
        ),
    ensures
        spec_reads(again, at, stop, reg, policy, msgs),
{
    lemma_read_unfolds(bytes, pos, end, reg, policy, msgs);
    let rest = msgs.skip(1);
    assert(msgs =~= seq![msgs[0]] + rest);
    let h = FitMessageHeader::spec_from_bytes(bytes[pos]);
    FitMessageHeader::lemma_from_bytes_wf(bytes[pos]);
    lemma_first_shape(bytes, pos, end, reg, policy, msgs);
    let piece = spec_first_piece(bytes, pos, reg);
    let window = again.subrange(at, at + piece.len());
    assert(window[0] == again[at]);
    assert(piece[0] == h.spec_to_bytes());
    let inner = piece.skip(1);
    assert(again.subrange(at + 1, at + 1 + inner.len()) =~= inner) by {
        assert forall|j: int| 0 <= j < inner.len() implies again[at + 1 + j] == inner[j] by {
            assert(window[j + 1] == again[at + 1 + j]);
        }
    }
    if h.definition {
        let d = spec_definition_of(msgs[0]);
        assert(spec_reads(again, at, stop, reg, policy, msgs)) by {
            reveal(spec_reads);
            reveal(spec_first_registry);
            lemma_definition_step(again, at, stop, reg, h, d, rest, policy);
        }
    } else {
        let d = reg[h.local_num as int]->0;
        assert(spec_reads(again, at, stop, reg, policy, msgs)) by {
            reveal(spec_reads);
            reveal(spec_first_registry);
            lemma_data_step(again, at, stop, reg, h, d, inner, rest, policy);
        }
    }
}

/// Records that were read are written, in no more bytes than they were
/// read from.
proof fn lemma_stream_written(
    bytes: Seq<u8>,
    pos: int,
    end: int,
    reg: Seq<Option<DefinitionMessageView>>,
    policy: DesyncPolicy,
    msgs: Seq<FitMessageView>,
)
    requires
        0 <= pos,
        spec_reads(bytes, pos, end, reg, policy, msgs),
        spec_decoded(reg),
    ensures
        spec_writes(msgs, reg, spec_written(msgs, reg)),
        spec_written(msgs, reg).len() > 0 ==> pos + spec_written(msgs, reg).len() <= bytes.len(),
    decreases bytes.len() - pos,
{
    if pos >= end {
        lemma_read_nothing(bytes, pos, end, reg, policy, msgs);
        lemma_written_is_one(msgs, reg, Seq::<u8>::empty());
    } else if spec_orphan(bytes, pos, reg) {
        lemma_read_skips(bytes, pos, end, reg, policy, msgs);
        lemma_stream_written(bytes, pos + 1, end, reg, policy, msgs);
    } else {
        lemma_read_unfolds(bytes, pos, end, reg, policy, msgs);
        let piece = spec_first_piece(bytes, pos, reg);
        let reg2 = spec_first_registry(bytes, pos, reg);
        let rest = msgs.skip(1);
        lemma_stream_written(bytes, pos + piece.len(), end, reg2, policy, rest);
        let rest_body = spec_written(rest, reg2);
        lemma_write_unfolds(bytes, pos, end, reg, policy, msgs, rest_body);
        lemma_written_is_one(msgs, reg, piece + rest_body);
    }
}

/// Records that were read are written as bytes that spell them again, in a
/// stream whose slots hold the same definitions, wherever the bytes stand,
/// where the fields that the records hold survive.
proof fn lemma_stream_settles(
    bytes: Seq<u8>,
    pos: int,
    end: int,
    reg: Seq<Option<DefinitionMessageView>>,
    policy: DesyncPolicy,
    msgs: Seq<FitMessageView>,
    prefix: Seq<u8>,
    tail: Seq<u8>,
)
    requires
        0 <= pos,
        spec_reads(bytes, pos, end, reg, policy, msgs),
        spec_decoded(reg),
        spec_survives(msgs, reg),
    ensures
        spec_reads(
            prefix + spec_written(msgs, reg) + tail,
            prefix.len() as int,
            (prefix.len() + spec_written(msgs, reg).len()) as int,
            reg,
            policy,
            msgs,
        ),
    decreases bytes.len() - pos,
{
    let body = spec_written(msgs, reg);
    if pos >= end {
        lemma_read_nothing(bytes, pos, end, reg, policy, msgs);
        lemma_written_is_one(msgs, reg, Seq::<u8>::empty());
        lemma_reread_nothing(prefix + body + tail, prefix.len() as int, reg, policy);
    } else if spec_orphan(bytes, pos, reg) {
        lemma_read_skips(bytes, pos, end, reg, policy, msgs);
        lemma_stream_settles(bytes, pos + 1, end, reg, policy, msgs, prefix, tail);
    } else {
        lemma_read_unfolds(bytes, pos, end, reg, policy, msgs);
        lemma_survives_unfolds(bytes, pos, reg, msgs);
        let piece = spec_first_piece(bytes, pos, reg);
        let reg2 = spec_first_registry(bytes, pos, reg);
        let next = pos + piece.len();
        let rest = msgs.skip(1);
        lemma_stream_settles(bytes, next, end, reg2, policy, rest, prefix + piece, tail);
        lemma_stream_written(bytes, next, end, reg2, policy, rest);
        let rest_body = spec_written(rest, reg2);
        lemma_write_unfolds(bytes, pos, end, reg, policy, msgs, rest_body);
        lemma_written_is_one(msgs, reg, piece + rest_body);
        let again = prefix + body + tail;
        assert(again =~= (prefix + piece) + rest_body + tail);
        let at = prefix.len() as int;
        let stop = (prefix.len() + body.len()) as int;
        assert(again.subrange(at, at + piece.len()) =~= piece);
        assert((prefix + piece).len() + rest_body.len() == stop);
        lemma_reread_first(bytes, pos, end, reg, policy, msgs, again, at, stop);
    }
}

/// The fields of records that were read under stable definitions survive.
proof fn lemma_stable_stream_survives(
    bytes: Seq<u8>,
    pos: int,
    end: int,
    reg: Seq<Option<DefinitionMessageView>>,
    policy: DesyncPolicy,
    msgs: Seq<FitMessageView>,
)
    requires
        0 <= pos,
        spec_reads(bytes, pos, end, reg, policy, msgs),
        spec_stable(reg, msgs),
    ensures
        spec_survives(msgs, reg),
    decreases bytes.len() - pos,
{
    if pos >= end {
        lemma_read_nothing(bytes, pos, end, reg, policy, msgs);
    } else if spec_orphan(bytes, pos, reg) {
        lemma_read_skips(bytes, pos, end, reg, policy, msgs);
        lemma_stable_stream_survives(bytes, pos + 1, end, reg, policy, msgs);
    } else {
        assert(spec_decoded(reg)) by {
            reveal(spec_stable);
            reveal(spec_decoded);
        }
        lemma_read_unfolds(bytes, pos, end, reg, policy, msgs);
        let reg2 = spec_first_registry(bytes, pos, reg);
        let next = pos + spec_first_piece(bytes, pos, reg).len();
        lemma_stable_tail(bytes, pos, end, reg, policy, msgs);
        lemma_stable_stream_survives(bytes, next, end, reg2, policy, msgs.skip(1));
        lemma_stable_unfolds(bytes, pos, end, reg, policy, msgs);
    }
}

/// Where the definitions of slots and records are stable, those behind the
/// first record are.
proof fn lemma_stable_tail(
    bytes: Seq<u8>,
    pos: int,
    end: int,
    reg: Seq<Option<DefinitionMessageView>>,
    policy: DesyncPolicy,
    msgs: Seq<FitMessageView>,
)
    requires
        0 <= pos < end,
        spec_reads(bytes, pos, end, reg, policy, msgs),
        spec_stable(reg, msgs),
        !spec_orphan(bytes, pos, reg),
    ensures
        spec_stable(spec_first_registry(bytes, pos, reg), msgs.skip(1)),
{
    reveal(spec_stable);
    assert(spec_decoded(reg)) by {
        reveal(spec_decoded);
    }
    lemma_read_unfolds(bytes, pos, end, reg, policy, msgs);
    assert(spec_decoded_registry(spec_first_registry(bytes, pos, reg))) by {
        reveal(spec_decoded);
    }
    reveal(spec_first_message);
    reveal(spec_first_registry);
    let h = FitMessageHeader::spec_from_bytes(bytes[pos]);
    FitMessageHeader::lemma_from_bytes_wf(bytes[pos]);
    if h.definition {
        assert(spec_stable_definition(spec_definition_of(msgs[0])));
    }
    assert(spec_stable_messages(msgs.skip(1))) by {
        assert forall|i: int| 0 <= i < msgs.skip(1).len() && (#[trigger] msgs.skip(1)[i])
            is Definition implies spec_stable_definition(spec_definition_of(msgs.skip(1)[i])) by {
            assert(msgs.skip(1)[i] == msgs[i + 1]);
        }
    }
}

/// Records that were decoded can be encoded, in a stream whose slots hold
/// the same definitions: in no more bytes than they were decoded from.
pub proof fn lemma_stream_is_written(
    bytes: Seq<u8>,
    pos: int,
    end: int,
    reg: Seq<Option<DefinitionMessageView>>,
    policy: DesyncPolicy,
)
    requires
        0 <= pos,
        spec_decoded_registry(reg),
        spec_read_messages(bytes, pos, end, reg, policy) is Ok,
    ensures
        ({
            let body = spec_write_messages(spec_read_messages(bytes, pos, end, reg, policy)->Ok_0, reg);
            &&& body is Ok
            &&& body->Ok_0.len() > 0 ==> pos + body->Ok_0.len() <= bytes.len()
        }),
{
    let msgs = spec_read_messages(bytes, pos, end, reg, policy)->Ok_0;
    assert(spec_reads(bytes, pos, end, reg, policy, msgs)) by {
        reveal(spec_reads);
    }
    assert(spec_decoded(reg)) by {
        reveal(spec_decoded);
    }
    lemma_stream_written(bytes, pos, end, reg, policy, msgs);
    reveal(spec_writes);
    reveal(spec_written);
}

/// Records that were decoded are written as bytes that decode to them
/// again, in a stream whose slots hold the same definitions, wherever the
/// bytes stand, where each field that the records hold is written as bytes
/// that decode to it again.
pub proof fn lemma_stream_round_trip(
    bytes: Seq<u8>,
    pos: int,
    end: int,
    reg: Seq<Option<DefinitionMessageView>>,
    policy: DesyncPolicy,
    prefix: Seq<u8>,
    tail: Seq<u8>,
)
    requires
        0 <= pos,
        spec_decoded_registry(reg),
        spec_read_messages(bytes, pos, end, reg, policy) is Ok,
        spec_settled_messages(spec_read_messages(bytes, pos, end, reg, policy)->Ok_0, reg),
    ensures
        ({
            let msgs = spec_read_messages(bytes, pos, end, reg, policy)->Ok_0;
            let body = spec_write_messages(msgs, reg);
            &&& body is Ok
            &&& body->Ok_0.len() > 0 ==> pos + body->Ok_0.len() <= bytes.len()
            &&& spec_read_messages(
                prefix + body->Ok_0 + tail,
                prefix.len() as int,
                (prefix.len() + body->Ok_0.len()) as int,
                reg,
                policy,
            ) == Ok::<Seq<FitMessageView>, FitError>(msgs)
        }),
{
    let msgs = spec_read_messages(bytes, pos, end, reg, policy)->Ok_0;
    assert(spec_reads(bytes, pos, end, reg, policy, msgs)) by {
        reveal(spec_reads);
    }
    assert(spec_decoded(reg)) by {
        reveal(spec_decoded);
    }
    assert(spec_survives(msgs, reg)) by {
        reveal(spec_survives);
    }
    lemma_stream_written(bytes, pos, end, reg, policy, msgs);
    lemma_stream_settles(bytes, pos, end, reg, policy, msgs, prefix, tail);
    reveal(spec_reads);
    reveal(spec_writes);
    reveal(spec_written);
}

/// The fields of records that were decoded under stable definitions are
/// each written as bytes that decode to them again.
pub proof fn lemma_stable_messages_settle(
    bytes: Seq<u8>,
    pos: int,
    end: int,
    reg: Seq<Option<DefinitionMessageView>>,
    policy: DesyncPolicy,
)
    requires
        0 <= pos,
        spec_sound_registry(reg),
        spec_read_messages(bytes, pos, end, reg, policy) is Ok,
        spec_stable_messages(spec_read_messages(bytes, pos, end, reg, policy)->Ok_0),
    ensures
        spec_settled_messages(spec_read_messages(bytes, pos, end, reg, policy)->Ok_0, reg),
{
    let msgs = spec_read_messages(bytes, pos, end, reg, policy)->Ok_0;
    assert(spec_reads(bytes, pos, end, reg, policy, msgs)) by {
        reveal(spec_reads);
    }
    assert(spec_stable(reg, msgs)) by {
        reveal(spec_stable);
    }
    lemma_stable_stream_survives(bytes, pos, end, reg, policy, msgs);
    reveal(spec_survives);
}

/// What a file is written as is consistent in itself: the bytes start with
/// a header that can be read, whose length is 12 without and 14 with a
/// checksum; the header's body length is the number of bytes between the
/// header and the last two bytes; the header's checksum, where it has one,
/// is that of its first twelve bytes; and the last two bytes are the
/// checksum of the body, little-endian.
pub proof fn lemma_written_file_consistent(fit: FitView)
    requires
        spec_write(fit) is Ok,
    ensures
        ({
            let out = spec_write(fit)->Ok_0;
            let h = spec_parse_header(out);
            &&& h is Some
            &&& h->0.header_size == spec_header_len(h->0)
            &&& h->0.crc is Some <==> fit.header.crc is Some
            &&& h->0.protocol_version == fit.header.protocol_version
            &&& h->0.profile_version == fit.header.profile_version
            &&& out.subrange(8, 12) == spec_tag_bytes()
            &&& h->0.data_type == spec_lossy_text(spec_tag_bytes())
            &&& out.len() == h->0.header_size + h->0.data_size + 2
            &&& out.subrange(h->0.header_size as int, out.len() - 2) == spec_write_messages(
                fit.data,
                empty_registry(),
            )->Ok_0
            &&& h->0.crc is Some ==> h->0.crc == Some(spec_crc16(out.subrange(0, 12)))
            &&& spec_u16_from(Endian::Little, out.skip(out.len() - 2)) == spec_crc16(
                out.subrange(h->0.header_size as int, out.len() - 2),
            )
        }),
{
    let body = spec_write_messages(fit.data, empty_registry())->Ok_0;
    let n = body.len() as int;
    let crc = spec_header_crc(fit.header, n);
    let written = spec_written_header(fit.header, n, crc);
    let plain = spec_written_header(fit.header, n, None);
    let head = spec_header_bytes(written);
    let out = spec_write(fit)->Ok_0;
    let end_crc = spec_u16_bytes(spec_crc16(body), Endian::Little);
    assert(out == head + body + end_crc);
    lemma_u16_round_trip(written.profile_version, Endian::Little);
    lemma_u32_round_trip(written.data_size, Endian::Little);
    lemma_u16_round_trip(spec_crc16(body), Endian::Little);
    let fixed = seq![written.header_size, written.protocol_version] + spec_u16_bytes(
        written.profile_version,
        Endian::Little,
    ) + spec_u32_bytes(written.data_size, Endian::Little) + spec_tag_bytes();
    assert(fixed.len() == 12);
    assert(spec_header_bytes(plain) == fixed);
    assert forall|j: int| 0 <= j < 12 implies out[j] == fixed[j] by {
        assert(head[j] == fixed[j]);
    }
    assert(out.skip(2)[0] == spec_u16_bytes(written.profile_version, Endian::Little)[0]);
    assert(out.skip(2)[1] == spec_u16_bytes(written.profile_version, Endian::Little)[1]);
    assert(out.skip(4)[0] == spec_u32_bytes(written.data_size, Endian::Little)[0]);
    assert(out.skip(4)[1] == spec_u32_bytes(written.data_size, Endian::Little)[1]);
    assert(out.skip(4)[2] == spec_u32_bytes(written.data_size, Endian::Little)[2]);
    assert(out.skip(4)[3] == spec_u32_bytes(written.data_size, Endian::Little)[3]);
    assert(out.subrange(0, 12) =~= fixed);
    assert(out.subrange(8, 12) =~= spec_tag_bytes());
    match crc {
        Some(c) => {
            lemma_u16_round_trip(c, Endian::Little);
            assert(head == fixed + spec_u16_bytes(c, Endian::Little));
            assert(out.skip(12)[0] == spec_u16_bytes(c, Endian::Little)[0]);
            assert(out.skip(12)[1] == spec_u16_bytes(c, Endian::Little)[1]);
        },
        None => {},
    }
    let hl = head.len() as int;
    assert(out.subrange(hl, out.len() - 2) =~= body);
    assert(out.skip(out.len() - 2)[0] == end_crc[0]);
    assert(out.skip(out.len() - 2)[1] == end_crc[1]);
}

/// The records of a file that was decoded are read from the end of its
/// header on.
proof fn lemma_read_is_header_then_messages(bytes: Seq<u8>, policy: DesyncPolicy)
    requires
        spec_read_with(bytes, policy) is Ok,
    ensures
        spec_parse_header(bytes) is Some,
        spec_read_with(bytes, policy)->Ok_0.header == spec_parse_header(bytes)->0,
        spec_read_messages(
            bytes,
            spec_header_len(spec_parse_header(bytes)->0),
            spec_parse_header(bytes)->0.header_size + spec_parse_header(bytes)->0.data_size,
            empty_registry(),
            policy,
        ) == Ok::<Seq<FitMessageView>, FitError>(spec_read_with(bytes, policy)->Ok_0.data),
        spec_parse_header(bytes)->0.crc is Some <==> spec_parse_header(bytes)->0.header_size
            == 14,
        spec_parse_header(bytes)->0.data_type == spec_lossy_text(bytes.subrange(8, 12)),
{
}

/// A buffer whose header can be read, and whose bytes behind the header
/// spell records up to where the header says, decodes to the header and
/// the records.
proof fn lemma_header_then_messages_is_read(
    out: Seq<u8>,
    policy: DesyncPolicy,
    msgs: Seq<FitMessageView>,
)
    requires
        spec_parse_header(out) is Some,
        spec_read_messages(
            out,
            spec_header_len(spec_parse_header(out)->0),
            spec_parse_header(out)->0.header_size + spec_parse_header(out)->0.data_size,
            empty_registry(),
            policy,
        ) == Ok::<Seq<FitMessageView>, FitError>(msgs),
    ensures
        spec_read_with(out, policy) == Ok::<FitView, FitError>(
            FitView { header: spec_parse_header(out)->0, data: msgs },
        ),
{
}

/// The registry of a stream in which nothing has been defined holds
/// nothing that decoding would not give, and nothing unstable.
proof fn lemma_empty_registry_sound()
    ensures
        spec_decoded_registry(empty_registry()),
        spec_sound_registry(empty_registry()),
{
}

/// A file whose records can be written in no more than `u32::MAX` bytes is
/// written as its header, its records and the checksum of the records.
proof fn lemma_write_is_header_body_checksum(fit: FitView)
    requires
        spec_write_messages(fit.data, empty_registry()) is Ok,
        spec_write_messages(fit.data, empty_registry())->Ok_0.len() <= 0xFFFF_FFFF,
    ensures
        ({
            let body = spec_write_messages(fit.data, empty_registry())->Ok_0;
            let n = body.len() as int;
            spec_write(fit) == Ok::<Seq<u8>, FitError>(
                spec_header_bytes(
                    spec_written_header(fit.header, n, spec_header_crc(fit.header, n)),
                ) + body + spec_u16_bytes(spec_crc16(body), Endian::Little),
            )
        }),
{
}

/// A file that was decoded can be encoded: every definition that it holds
/// has a wire form, and every data message a layout of its message type in
/// its own slot, so that the records are written, in no more bytes than
/// they were read from. The file is written unless those are more bytes
/// than a header can count, which a buffer of no more than `u32::MAX` bytes
/// does not give. This holds under either policy for records without a
/// definition, whatever the header says and whatever the fields hold.
pub proof fn lemma_decoded_file_is_written(bytes: Seq<u8>, policy: DesyncPolicy)
    requires
        spec_read_with(bytes, policy) is Ok,
    ensures
        ({
            let fit = spec_read_with(bytes, policy)->Ok_0;
            let body = spec_write_messages(fit.data, empty_registry());
            &&& body is Ok
            &&& body->Ok_0.len() <= bytes.len()
            &&& spec_write(fit) is Ok <==> body->Ok_0.len() <= 0xFFFF_FFFF
            &&& bytes.len() <= 0xFFFF_FFFF ==> spec_write(fit) is Ok
            &&& spec_write(fit) is Ok ==> spec_write(fit)->Ok_0.len() == spec_header_len(fit.header)
                + body->Ok_0.len() + 2
        }),
{
    let fit = spec_read_with(bytes, policy)->Ok_0;
    lemma_read_is_header_then_messages(bytes, policy);
    let h = spec_parse_header(bytes)->0;
    lemma_empty_registry_sound();
    lemma_stream_is_written(
        bytes,
        spec_header_len(h),
        h.header_size + h.data_size,
        empty_registry(),
        policy,
    );
    let n = spec_write_messages(fit.data, empty_registry())->Ok_0.len() as int;
    if n <= 0xFFFF_FFFF {
        lemma_write_is_header_body_checksum(fit);
        lemma_header_bytes_len(spec_written_header(fit.header, n, spec_header_crc(fit.header, n)));
    }
}

/// The fields of a file that was decoded under stable definitions are each
/// written as bytes that decode to them again: such a file meets the
/// premise of the round trip.
pub proof fn lemma_stable_file_settles(bytes: Seq<u8>, policy: DesyncPolicy)
    requires
        spec_read_with(bytes, policy) is Ok,
        spec_stable_messages(spec_read_with(bytes, policy)->Ok_0.data),
    ensures
        spec_settled_messages(spec_read_with(bytes, policy)->Ok_0.data, empty_registry()),
{
    lemma_read_is_header_then_messages(bytes, policy);
    let h = spec_parse_header(bytes)->0;
    lemma_empty_registry_sound();
    lemma_stable_messages_settle(
        bytes,
        spec_header_len(h),
        h.header_size + h.data_size,
        empty_registry(),
        policy,
    );
}

/// Round trip: a buffer that decodes to a file is written as a buffer that
/// decodes again, to the same messages in the same order, where each field
/// that the file holds is written as bytes that decode to it again.
///
/// The header that is read again has the versions of the first, and a
/// checksum where the first had one. Its length is 12 without and 14 with
/// a checksum: that of the first, where the first was one of the two. Its
/// tag is the text of the format's tag: that of the first, where the first
/// buffer had the format's tag.
///
/// This holds under either policy for records without a definition: what
/// was passed over is not written, and the messages that were read are
/// read again.
pub proof fn lemma_file_round_trip_with(bytes: Seq<u8>, policy: DesyncPolicy)
    requires
        spec_read_with(bytes, policy) is Ok,
        bytes.len() <= 0xFFFF_FFFF,
        spec_settled_messages(spec_read_with(bytes, policy)->Ok_0.data, empty_registry()),
    ensures
        ({
            let fit = spec_read_with(bytes, policy)->Ok_0;
            let out = spec_write(fit);
            let again = spec_read_with(out->Ok_0, policy);
            &&& out is Ok
            &&& again is Ok
            &&& again->Ok_0.data == fit.data
            &&& again->Ok_0.header.protocol_version == fit.header.protocol_version
            &&& again->Ok_0.header.profile_version == fit.header.profile_version
            &&& again->Ok_0.header.crc is Some <==> fit.header.crc is Some
            &&& again->Ok_0.header.header_size == spec_header_len(fit.header)
            &&& fit.header.header_size == 12 || fit.header.header_size == 14
                ==> again->Ok_0.header.header_size == fit.header.header_size
            &&& again->Ok_0.header.data_type == spec_lossy_text(spec_tag_bytes())
            &&& bytes.subrange(8, 12) == spec_tag_bytes() ==> again->Ok_0.header.data_type
                == fit.header.data_type
            &&& again->Ok_0.header.data_size == spec_write_messages(
                fit.data,
                empty_registry(),
            )->Ok_0.len()
        }),
{
    let fit = spec_read_with(bytes, policy)->Ok_0;
    lemma_read_is_header_then_messages(bytes, policy);
    let h = spec_parse_header(bytes)->0;
    let start = spec_header_len(h);
    let stop = h.header_size + h.data_size;
    lemma_empty_registry_sound();
    let body = spec_write_messages(fit.data, empty_registry())->Ok_0;
    let n = body.len() as int;
    let crc = spec_header_crc(fit.header, n);
    let head = spec_header_bytes(spec_written_header(fit.header, n, crc));
    let end_crc = spec_u16_bytes(spec_crc16(body), Endian::Little);
    lemma_stream_round_trip(bytes, start, stop, empty_registry(), policy, head, end_crc);
    lemma_write_is_header_body_checksum(fit);
    lemma_written_file_consistent(fit);
    let out = spec_write(fit)->Ok_0;
    lemma_header_bytes_len(spec_written_header(fit.header, n, crc));
    lemma_header_then_messages_is_read(out, policy, fit.data);
}

/// Round trip, where a record without a definition is a fault: a buffer
/// that decodes to a file is written as a buffer that decodes again, to
/// the same messages under a header with the same versions, the same
/// length where that was 12 or 14, and the same tag where that was the
/// format's, where each field that the file holds is written as bytes that
/// decode to it again.
pub proof fn lemma_file_round_trip(bytes: Seq<u8>)
    requires
        spec_read(bytes) is Ok,
        bytes.len() <= 0xFFFF_FFFF,
        spec_settled_messages(spec_read(bytes)->Ok_0.data, empty_registry()),
    ensures
        ({
            let fit = spec_read(bytes)->Ok_0;
            let out = spec_write(fit);
            let again = spec_read(out->Ok_0);
            &&& out is Ok
            &&& again is Ok
            &&& again->Ok_0.data == fit.data
            &&& again->Ok_0.header.protocol_version == fit.header.protocol_version
            &&& again->Ok_0.header.profile_version == fit.header.profile_version
            &&& again->Ok_0.header.crc is Some <==> fit.header.crc is Some
            &&& fit.header.header_size == 12 || fit.header.header_size == 14
                ==> again->Ok_0.header.header_size == fit.header.header_size
            &&& bytes.subrange(8, 12) == spec_tag_bytes() ==> again->Ok_0.header.data_type
                == fit.header.data_type
        }),
{
    lemma_file_round_trip_with(bytes, DesyncPolicy::Abort);
}

} // verus!
