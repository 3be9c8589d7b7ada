//! Codec for the FIT activity-file format: decoding a byte buffer into an
//! ordered sequence of definition and data messages, encoding it back with
//! both checksums recomputed, and merging the sessions of several files.
//!
//! [`Fit::read`] decodes a buffer, [`Fit::write`] encodes a file and
//! [`Fit::merge`] makes one file of several. Each states what it returns
//! over a model of the format on byte sequences: `spec_read`, `spec_write`
//! and `spec_merge`. The module `laws` relates them: what is written is
//! consistent in itself, and decodes to what was written.
//!
//! The codec works on integers only.
//!
//! - A floating-point field is held as its bits, `Value::F32` and
//!   `Value::F64`.
//! - A coordinate stays in semicircles, of which 2^31 are 180 degrees.
//! - A scale is an exact fraction. Dividing by it rounds towards zero and
//!   stops at the ends of the number's range; offsets wrap at the number's
//!   width, so that they can be taken back without loss.
//! - A field that carries the invalid pattern of its base type, or that its
//!   layout cannot hold, is `Value::Absent`.

pub mod laws;
pub mod protocol;

use crate::laws::lemma_written_file_consistent;
use crate::protocol::{
    calculate_fit_crc, empty_registry, messages_view, spec_crc16, spec_data_message,
    spec_definition_bytes, spec_header_bytes, spec_header_len, spec_layout_slot,
    spec_parse_definition, spec_parse_header, spec_tag_bytes, DataMessage, DataMessageView,
    DefinitionMessage, DefinitionMessageView, DefinitionRegistry, Endian, FitDataMessage,
    FitDefinitionMessage, FitError, FitHeader, FitHeaderView, FitMessage, FitMessageHeader,
    FitMessageView,
};
use crate::protocol::data_field::{
    fields_view, lemma_total_size_nonnegative, spec_total_size, spec_write_fields, DataFieldView,
};
use crate::protocol::io::{
    read_u8, spec_u16_bytes, spec_u16_from, spec_u32_bytes, write_bin_u16, ByteCursor,
};
use crate::protocol::macros::{
    aggregate, session_views, spec_aggregate, spec_update_field, update_field, SUMMARY_RULES,
    SUMMARY_RULE_COUNT,
};
use crate::protocol::message_type::MessageType;
use vstd::prelude::*;
use vstd::slice::slice_subrange;

verus! {

/// A decoded file: its header and its records in the order of the stream.
#[derive(Clone, Debug, PartialEq)]
pub struct Fit {
    pub header: FitHeader,
    pub data: Vec<FitMessage>,
}

/// What a `Fit` holds, as mathematical data.
pub struct FitView {
    pub header: FitHeaderView,
    pub data: Seq<FitMessageView>,
}

impl View for Fit {
    type V = FitView;

    open spec fn view(&self) -> FitView {
        FitView { header: self.header@, data: messages_view(self.data@) }
    }
}

/// What the decoder does with a data record whose slot holds no
/// definition, and whose length is therefore unknown.
#[derive(Debug, Copy, Clone, PartialEq, Eq, Structural)]
pub enum DesyncPolicy {
    /// The decoding fails with `DesynchronizedStream`.
    Abort,
    /// The header byte of the record is passed over, and the decoding goes
    /// on behind it.
    Skip,
}

/// A result with `m` put before the messages of a success.
pub open spec fn spec_prepend(
    m: FitMessageView,
    r: Result<Seq<FitMessageView>, FitError>,
) -> Result<Seq<FitMessageView>, FitError> {
    match r {
        Ok(s) => Ok(seq![m] + s),
        Err(e) => Err(e),
    }
}

/// The records that the bytes from `pos` up to `end` spell, in a stream
/// whose slots hold the definitions `reg`.
///
/// Each record starts with its header byte. A definition is read and takes
/// its slot, in place of what the slot held; a data record is read under
/// the definition that its slot holds at that point. The first record that
/// cannot be read decides the error: `Truncated` where the bytes end before
/// the record does, `UnsupportedFeature` for a definition with developer
/// fields, `DesynchronizedStream` for a data record in a slot without a
/// definition, unless the policy is to skip such records: then the next
/// record is read from the byte behind the header byte.
pub open spec fn spec_read_messages(
    bytes: Seq<u8>,
    pos: int,
    end: int,
    reg: Seq<Option<DefinitionMessageView>>,
    policy: DesyncPolicy,
) -> Result<Seq<FitMessageView>, FitError>
    decreases bytes.len() - pos,
{
    if pos >= end {
        Ok(Seq::empty())
    } else if pos < 0 || pos >= bytes.len() {
        Err(FitError::Truncated)
    } else {
        let h = FitMessageHeader::spec_from_bytes(bytes[pos]);
        if h.definition {
            if h.dev_fields {
                Err(FitError::UnsupportedFeature)
            } else {
                match spec_parse_definition(bytes, pos + 1) {
                    None => Err(FitError::Truncated),
                    Some(d) => spec_prepend(
                        FitMessageView::Definition(h, d),
                        spec_read_messages(
                            bytes,
                            pos + 6 + 3 * d.num_fields,
                            end,
                            reg.update(h.local_num as int, Some(d)),
                            policy,
                        ),
                    ),
                }
            }
        } else {
            match reg[h.local_num as int] {
                None => match policy {
                    DesyncPolicy::Abort => Err(FitError::DesynchronizedStream),
                    DesyncPolicy::Skip => spec_read_messages(bytes, pos + 1, end, reg, policy),
                },
                Some(d) => {
                    let n = spec_total_size(d.fields);
                    if n < 0 || pos + 1 + n > bytes.len() {
                        Err(FitError::Truncated)
                    } else {
                        spec_prepend(
                            FitMessageView::Data(
                                h,
                                spec_data_message(d, bytes.subrange(pos + 1, pos + 1 + n)),
                            ),
                            spec_read_messages(bytes, pos + 1 + n, end, reg, policy),
                        )
                    }
                },
            }
        }
    }
}

/// The file that a buffer spells under a policy: its header, and the
/// records from the end of the header up to the header's length plus its
/// body length.
pub open spec fn spec_read_with(bytes: Seq<u8>, policy: DesyncPolicy) -> Result<FitView, FitError> {
    match spec_parse_header(bytes) {
        None => Err(FitError::Truncated),
        Some(h) => match spec_read_messages(
            bytes,
            spec_header_len(h),
            h.header_size + h.data_size,
            empty_registry(),
            policy,
        ) {
            Ok(data) => Ok(FitView { header: h, data }),
            Err(e) => Err(e),
        },
    }
}

/// The file that a buffer spells, where a record without a definition is a
/// fault.
pub open spec fn spec_read(bytes: Seq<u8>) -> Result<FitView, FitError> {
    spec_read_with(bytes, DesyncPolicy::Abort)
}

/// A header with another slot.
pub open spec fn spec_in_slot(h: FitMessageHeader, s: int) -> FitMessageHeader {
    FitMessageHeader {
        compressed_header: h.compressed_header,
        definition: h.definition,
        dev_fields: h.dev_fields,
        local_num: s as u8,
        time_offset: h.time_offset,
    }
}

/// The bytes of one record in a stream whose slots hold the definitions
/// `reg`, or why it has none.
///
/// `UnsupportedFeature` for a definition with developer fields;
/// `InvalidArgument` for a header that no byte stands for, for one whose
/// definition flag does not say what the record is, and for a definition
/// whose field count is not the number of its fields;
/// `MissingDefinitionForEncode` for a data message of whose message type
/// no slot holds a definition.
///
/// A data message is written in the layout of its own slot, where that
/// holds a definition of its message type. Where it does not, the message
/// is written in the layout of the first slot that does, and under a
/// header that names that slot; a compressed header, which has two bits for
/// the slot, then needs one of the first four.
pub open spec fn spec_write_message(
    m: FitMessageView,
    reg: Seq<Option<DefinitionMessageView>>,
) -> Result<Seq<u8>, FitError> {
    match m {
        FitMessageView::Definition(h, d) => {
            if h.dev_fields || d.dev_num_fields is Some || d.dev_fields is Some {
                Err(FitError::UnsupportedFeature)
            } else if !h.wf() || !h.definition || d.num_fields != d.fields.len() {
                Err(FitError::InvalidArgument)
            } else {
                Ok(seq![h.spec_to_bytes()] + spec_definition_bytes(d))
            }
        },
        FitMessageView::Data(h, msg) => {
            if !h.wf() || h.definition {
                Err(FitError::InvalidArgument)
            } else {
                match spec_layout_slot(reg, h.local_num, msg.message_type) {
                    None => Err(FitError::MissingDefinitionForEncode),
                    Some(s) => if !spec_in_slot(h, s).wf() {
                        Err(FitError::MissingDefinitionForEncode)
                    } else {
                        Ok(
                            seq![spec_in_slot(h, s).spec_to_bytes()] + spec_write_fields(
                                msg.values,
                                msg.message_type,
                                reg[s]->0.endian,
                                reg[s]->0.fields,
                            ),
                        )
                    },
                }
            }
        },
    }
}

/// The definitions of the slots behind a record: a definition takes its
/// slot, a data record changes nothing.
pub open spec fn spec_registry_after(
    m: FitMessageView,
    reg: Seq<Option<DefinitionMessageView>>,
) -> Seq<Option<DefinitionMessageView>> {
    match m {
        FitMessageView::Definition(h, d) => reg.update(h.local_num as int, Some(d)),
        FitMessageView::Data(_, _) => reg,
    }
}

/// The bytes of a sequence of records, one after the other, or the error of
/// the first that has none.
pub open spec fn spec_write_messages(
    msgs: Seq<FitMessageView>,
    reg: Seq<Option<DefinitionMessageView>>,
) -> Result<Seq<u8>, FitError>
    decreases msgs.len(),
{
    if msgs.len() == 0 {
        Ok(Seq::empty())
    } else {
        match spec_write_message(msgs[0], reg) {
            Err(e) => Err(e),
            Ok(b) => match spec_write_messages(
                msgs.skip(1),
                spec_registry_after(msgs[0], reg),
            ) {
                Ok(rest) => Ok(b + rest),
                Err(e) => Err(e),
            },
        }
    }
}

/// The header that a file is written with: the length that its form has,
/// the length of the body as it was encoded, and the checksum, where the
/// header has one, as given.
pub open spec fn spec_written_header(
    h: FitHeaderView,
    body_len: int,
    crc: Option<u16>,
) -> FitHeaderView {
    FitHeaderView {
        header_size: if h.crc is Some {
            14u8
        } else {
            12u8
        },
        protocol_version: h.protocol_version,
        profile_version: h.profile_version,
        data_size: body_len as u32,
        data_type: h.data_type,
        crc,
    }
}

/// The checksum that a header is written with: that of its first twelve
/// bytes, where it has one.
pub open spec fn spec_header_crc(h: FitHeaderView, body_len: int) -> Option<u16> {
    if h.crc is Some {
        Some(spec_crc16(spec_header_bytes(spec_written_header(h, body_len, None))))
    } else {
        None
    }
}

/// The bytes of a file: the header with the body's length and the header's
/// own checksum, the records, and the checksum of the records,
/// little-endian. A body of more than `u32::MAX` bytes has no header, and
/// the file no bytes: `InvalidArgument`.
pub open spec fn spec_write(fit: FitView) -> Result<Seq<u8>, FitError> {
    match spec_write_messages(fit.data, empty_registry()) {
        Err(e) => Err(e),
        Ok(body) => if body.len() > 0xFFFF_FFFF {
            Err(FitError::InvalidArgument)
        } else {
            Ok(
                spec_header_bytes(
                    spec_written_header(
                        fit.header,
                        body.len() as int,
                        spec_header_crc(fit.header, body.len() as int),
                    ),
                ) + body + spec_u16_bytes(spec_crc16(body), Endian::Little),
            )
        },
    }
}

/// A result with `prefix` put before the messages of a success.
pub open spec fn spec_prefixed(
    prefix: Seq<FitMessageView>,
    r: Result<Seq<FitMessageView>, FitError>,
) -> Result<Seq<FitMessageView>, FitError> {
    match r {
        Ok(s) => Ok(prefix + s),
        Err(e) => Err(e),
    }
}

/// A result with `prefix` put before the bytes of a success.
pub open spec fn spec_prefixed_bytes(prefix: Seq<u8>, r: Result<Seq<u8>, FitError>) -> Result<
    Seq<u8>,
    FitError,
> {
    match r {
        Ok(s) => Ok(prefix + s),
        Err(e) => Err(e),
    }
}

/// Whether a record is a data message of the given type.
pub open spec fn spec_is_data_of(m: FitMessageView, t: MessageType) -> bool {
    match m {
        FitMessageView::Data(_, d) => d.message_type == t,
        FitMessageView::Definition(_, _) => false,
    }
}

/// The place of the first session message from `from` on.
pub open spec fn spec_session_from(data: Seq<FitMessageView>, from: int) -> Option<int>
    decreases data.len() - from,
{
    if from < 0 || from >= data.len() {
        None
    } else if spec_is_data_of(data[from], MessageType::Session) {
        Some(from)
    } else {
        spec_session_from(data, from + 1)
    }
}

/// The place of the first session message of a file.
pub open spec fn spec_session_index(data: Seq<FitMessageView>) -> Option<int> {
    spec_session_from(data, 0)
}

/// The session messages of the files that have one, in the order of the
/// files.
pub open spec fn spec_sessions(fits: Seq<FitView>) -> Seq<FitMessageView>
    decreases fits.len(),
{
    if fits.len() == 0 {
        Seq::empty()
    } else {
        let rest = spec_sessions(fits.drop_last());
        match spec_session_index(fits.last().data) {
            Some(i) => rest.push(fits.last().data[i]),
            None => rest,
        }
    }
}

/// The place, in its own file, of the session message of the first file
/// from `from` on that has one.
pub open spec fn spec_first_session_index(fits: Seq<FitView>, from: int) -> Option<int>
    decreases fits.len() - from,
{
    if from < 0 || from >= fits.len() {
        None
    } else {
        match spec_session_index(fits[from].data) {
            Some(i) => Some(i),
            None => spec_first_session_index(fits, from + 1),
        }
    }
}

/// The record messages of a file, in order.
pub open spec fn spec_records(data: Seq<FitMessageView>) -> Seq<FitMessageView>
    decreases data.len(),
{
    if data.len() == 0 {
        Seq::empty()
    } else if spec_is_data_of(data.last(), MessageType::Record) {
        spec_records(data.drop_last()).push(data.last())
    } else {
        spec_records(data.drop_last())
    }
}

/// The messages of the first file, and behind them the record messages of
/// the next `n - 1` files, file after file.
pub open spec fn spec_gathered(fits: Seq<FitView>, n: int) -> Seq<FitMessageView>
    decreases n,
{
    if n <= 1 {
        fits[0].data
    } else {
        spec_gathered(fits, n - 1) + spec_records(fits[n - 1].data)
    }
}

/// The data message of a record that is one.
pub open spec fn spec_data_of(m: FitMessageView) -> DataMessageView {
    match m {
        FitMessageView::Data(_, d) => d,
        FitMessageView::Definition(_, _) => DataMessageView {
            message_type: MessageType::Unknown,
            values: Seq::empty(),
        },
    }
}

/// The header of a record.
pub open spec fn spec_header_of(m: FitMessageView) -> FitMessageHeader {
    match m {
        FitMessageView::Data(h, _) => h,
        FitMessageView::Definition(h, _) => h,
    }
}

/// The fields after the first `n` summary rules have been applied to them:
/// each rule gives the first field of its number the value that the
/// sessions have under the rule, where they have one.
pub open spec fn spec_apply_rules(
    values: Seq<DataFieldView>,
    sessions: Seq<DataMessageView>,
    n: int,
) -> Seq<DataFieldView>
    decreases n,
{
    if n <= 0 {
        values
    } else {
        let before = spec_apply_rules(values, sessions, n - 1);
        let rule = SUMMARY_RULES[n - 1];
        match spec_aggregate(rule.1, rule.2, rule.0, sessions) {
            Some(v) => spec_update_field(before, rule.0, v),
            None => before,
        }
    }
}

/// The one session that stands for several: the first of them, with its
/// summary fields recomputed over all of them. `None` where there is none.
pub open spec fn spec_merge_sessions(sessions: Seq<FitMessageView>) -> Option<FitMessageView> {
    if sessions.len() == 0 {
        None
    } else {
        let all = Seq::new(sessions.len(), |i: int| spec_data_of(sessions[i]));
        Some(
            FitMessageView::Data(
                spec_header_of(sessions[0]),
                DataMessageView {
                    message_type: all[0].message_type,
                    values: spec_apply_rules(all[0].values, all, SUMMARY_RULE_COUNT as int),
                },
            ),
        )
    }
}

/// The messages with the merged session in the place that the session of
/// the first file that has one has in that file; unchanged where there is
/// no session, or the messages have no such place.
pub open spec fn spec_replace_session(
    data: Seq<FitMessageView>,
    index: Option<int>,
    merged: Option<FitMessageView>,
) -> Seq<FitMessageView> {
    match (index, merged) {
        (Some(i), Some(m)) => if 0 <= i < data.len() {
            data.update(i, m)
        } else {
            data
        },
        _ => data,
    }
}

/// The file that several files merge to: the header and the messages of
/// the first, the record messages of the others behind them in the order of
/// the files, and the merged session in its place. Fewer than two files do
/// not merge: `InvalidArgument`.
pub open spec fn spec_merge(fits: Seq<FitView>) -> Result<FitView, FitError> {
    if fits.len() < 2 {
        Err(FitError::InvalidArgument)
    } else {
        Ok(
            FitView {
                header: fits[0].header,
                data: spec_replace_session(
                    spec_gathered(fits, fits.len() as int),
                    spec_first_session_index(fits, 0),
                    spec_merge_sessions(spec_sessions(fits)),
                ),
            },
        )
    }
}

/// The views of a sequence of files, in order.
pub open spec fn fits_view(s: Seq<Fit>) -> Seq<FitView> {
    Seq::new(s.len(), |i: int| s[i]@)
}

/// The views of a sequence of data records, each as a record of a file.
pub open spec fn data_records_view(s: Seq<FitDataMessage>) -> Seq<FitMessageView> {
    Seq::new(s.len(), |i: int| FitMessageView::Data(s[i].header, s[i].data@))
}

impl Fit {
    /// Decodes a file. A data record in a slot without a definition is a
    /// fault.
    pub fn read(buf: Vec<u8>) -> (r: Result<Fit, FitError>)
        ensures
            match r {
                Ok(fit) => spec_read(buf@) == Ok::<FitView, FitError>(fit@),
                Err(e) => spec_read(buf@) == Err::<FitView, FitError>(e),
            },
    {
        Fit::read_with(buf, DesyncPolicy::Abort)
    }

    /// Decodes a file under the caller's policy for data records in slots
    /// without a definition.
    pub fn read_with(buf: Vec<u8>, policy: DesyncPolicy) -> (r: Result<Fit, FitError>)
        ensures
            match r {
                Ok(fit) => spec_read_with(buf@, policy) == Ok::<FitView, FitError>(fit@),
                Err(e) => spec_read_with(buf@, policy) == Err::<FitView, FitError>(e),
            },
    {
        let mut cursor = ByteCursor::new(buf);
        let ghost bytes = cursor.bytes();
        proof {
            assert(bytes.skip(0) =~= bytes);
        }
        let header = match FitHeader::read(&mut cursor) {
            Ok(h) => h,
            Err(e) => {
                return Err(e);
            },
        };
        let end: u64 = header.data_size as u64 + header.header_size as u64;
        let ghost start = cursor.spec_position();
        let mut registry = DefinitionRegistry::new();
        let mut data: Vec<FitMessage> = Vec::new();
        proof {
            let all = spec_read_messages(bytes, start, end as int, empty_registry(), policy);
            assert(messages_view(data@) =~= Seq::<FitMessageView>::empty());
            assert(Seq::<FitMessageView>::empty() + all->Ok_0 =~= all->Ok_0);
        }
        loop
            invariant
                cursor.bytes() == bytes,
                bytes == buf@,
                spec_parse_header(bytes) == Some(header@),
                start == spec_header_len(header@),
                end == header.header_size + header.data_size,
                spec_read_messages(bytes, start, end as int, empty_registry(), policy)
                    == spec_prefixed(
                    messages_view(data@),
                    spec_read_messages(
                        bytes,
                        cursor.spec_position(),
                        end as int,
                        registry.view(),
                        policy,
                    ),
                ),
            ensures
                spec_read_messages(bytes, start, end as int, empty_registry(), policy) == Ok::<
                    Seq<FitMessageView>,
                    FitError,
                >(messages_view(data@)),
            decreases bytes.len() - cursor.spec_position(),
        {
            let pos: usize = cursor.position();
            let ghost prefix = messages_view(data@);
            let ghost reg = registry.view();
            if pos as u64 >= end {
                proof {
                    assert(prefix + Seq::<FitMessageView>::empty() =~= prefix);
                }
                break ;
            }
            if cursor.remaining() < 1 {
                return Err(FitError::Truncated);
            }
            let message_header = FitMessageHeader::from_bytes(read_u8(&mut cursor));
            if message_header.definition {
                if message_header.dev_fields {
                    return Err(FitError::UnsupportedFeature);
                }
                let definition_message = match DefinitionMessage::read(&mut cursor) {
                    Ok(d) => d,
                    Err(e) => {
                        return Err(e);
                    },
                };
                let local_num: u8 = message_header.local_num;
                let ghost m = FitMessageView::Definition(message_header, definition_message@);
                registry.install(local_num, definition_message.clone_definition());
                data.push(
                    FitMessage::Definition(
                        FitDefinitionMessage { header: message_header, data: definition_message },
                    ),
                );
                proof {
                    assert(messages_view(data@) =~= prefix.push(m));
                    let rest = spec_read_messages(
                        bytes,
                        cursor.spec_position(),
                        end as int,
                        registry.view(),
                        policy,
                    );
                    if rest is Ok {
                        assert(prefix + (seq![m] + rest->Ok_0) =~= prefix.push(m) + rest->Ok_0);
                    }
                }
            } else {
                let definition = match registry.lookup(message_header.local_num) {
                    None => {
                        match policy {
                            DesyncPolicy::Abort => {
                                return Err(FitError::DesynchronizedStream);
                            },
                            DesyncPolicy::Skip => {
                                continue ;
                            },
                        }
                    },
                    Some(d) => d,
                };
                proof {
                    lemma_total_size_nonnegative(definition.fields@);
                }
                let data_message = match DataMessage::read(&mut cursor, definition) {
                    Ok(m) => m,
                    Err(e) => {
                        return Err(e);
                    },
                };
                let ghost m = FitMessageView::Data(message_header, data_message@);
                data.push(
                    FitMessage::Data(FitDataMessage { header: message_header, data: data_message }),
                );
                proof {
                    assert(messages_view(data@) =~= prefix.push(m));
                    let rest = spec_read_messages(
                        bytes,
                        cursor.spec_position(),
                        end as int,
                        registry.view(),
                        policy,
                    );
                    if rest is Ok {
                        assert(prefix + (seq![m] + rest->Ok_0) =~= prefix.push(m) + rest->Ok_0);
                    }
                }
            }
        }
        Ok(Fit { header, data })
    }

    /// Encodes the file: the bytes that `spec_write` gives, or its error.
    ///
    /// The bytes are consistent in themselves: the header's body length is
    /// the number of bytes between the header and the last two bytes, the
    /// header's checksum, where it has one, is that of its first twelve
    /// bytes, and the last two bytes are the checksum of the body.
    pub fn write(&self) -> (r: Result<Vec<u8>, FitError>)
        ensures
            match r {
                Ok(buf) => {
                    let h = spec_parse_header(buf@);
                    &&& spec_write(self@) == Ok::<Seq<u8>, FitError>(buf@)
                    &&& h is Some
                    &&& h->0.header_size == spec_header_len(h->0)
                    &&& buf@.len() == h->0.header_size + h->0.data_size + 2
                    &&& h->0.crc is Some ==> h->0.crc == Some(spec_crc16(buf@.subrange(0, 12)))
                    &&& spec_u16_from(Endian::Little, buf@.skip(buf@.len() - 2)) == spec_crc16(
                        buf@.subrange(h->0.header_size as int, buf@.len() - 2),
                    )
                },
                Err(e) => spec_write(self@) == Err::<Seq<u8>, FitError>(e),
            },
    {
        let mut buf: Vec<u8> = Vec::new();
        let header = match self.write_buf(&mut buf) {
            Ok(h) => h,
            Err(e) => {
                return Err(e);
            },
        };
        proof {
            lemma_header_bytes_len(header@);
            let body = spec_write_messages(self@.data, empty_registry())->Ok_0;
            assert(buf@.subrange(0, header.header_size as int) =~= spec_header_bytes(header@));
            assert(buf@.skip(header.header_size as int) =~= body);
        }
        Fit::write_crc(&header, &mut buf);
        proof {
            lemma_written_file_consistent(self@);
        }
        Ok(buf)
    }

    /// Puts into the header's checksum, where it has one, the checksum of
    /// the twelve bytes before it, and appends the checksum of the body.
    fn write_crc(header: &FitHeader, buf: &mut Vec<u8>)
        requires
            header.crc is Some <==> header.header_size == 14,
            header.crc is None ==> header.header_size == 12,
            old(buf)@.len() == header.header_size + header.data_size,
            old(buf)@.subrange(0, header.header_size as int) == spec_header_bytes(header@),
        ensures
            final(buf)@ == spec_header_bytes(
                spec_written_header(
                    header@,
                    header.data_size as int,
                    spec_header_crc(header@, header.data_size as int),
                ),
            ) + old(buf)@.skip(header.header_size as int) + spec_u16_bytes(
                spec_crc16(old(buf)@.skip(header.header_size as int)),
                Endian::Little,
            ),
    {
        let ghost body = buf@.skip(header.header_size as int);
        let ghost plain = spec_written_header(header@, header.data_size as int, None);
        let ghost stamped = spec_written_header(
            header@,
            header.data_size as int,
            spec_header_crc(header@, header.data_size as int),
        );
        let mut header_crc: Option<u16> = None;
        if header.crc.is_some() {
            let head = slice_subrange(buf.as_slice(), 0, (header.header_size - 2) as usize);
            proof {
                assert(head@ =~= spec_header_bytes(plain));
            }
            header_crc = Some(calculate_fit_crc(head));
        }
        let end_byte: usize = buf.len();
        let body_crc: u16 = calculate_fit_crc(
            slice_subrange(buf.as_slice(), header.header_size as usize, end_byte),
        );
        proof {
            assert(buf@.subrange(header.header_size as int, end_byte as int) =~= body);
        }
        match header_crc {
            None => {
                proof {
                    assert(stamped == header@);
                    assert(buf@ =~= spec_header_bytes(stamped) + body);
                }
            },
            Some(crc) => {
                let lo: u8 = (crc % 256) as u8;
                let hi: u8 = (crc / 256) as u8;
                buf.set(12, lo);
                buf.set(13, hi);
                proof {
                    assert(buf@ =~= spec_header_bytes(stamped) + body);
                }
            },
        }
        write_bin_u16(buf, body_crc, Endian::Little);
    }

    /// Writes the header and the records into `buf`, in place of what it
    /// held, and gives back the header as written: with the length that
    /// its form has and the length of the body.
    ///
    /// It fails exactly where `spec_write` does; a file that was decoded
    /// from no more than `u32::MAX` bytes is not among those
    /// (`laws::lemma_decoded_file_is_written`).
    pub(crate) fn write_buf(&self, buf: &mut Vec<u8>) -> (r: Result<FitHeader, FitError>)
        ensures
            match r {
                Ok(h) => {
                    let body = spec_write_messages(self@.data, empty_registry());
                    &&& body is Ok
                    &&& body->Ok_0.len() <= 0xFFFF_FFFF
                    &&& spec_write(self@) is Ok
                    &&& final(buf)@ == spec_header_bytes(h@) + body->Ok_0
                    &&& h@ == spec_written_header(
                        self@.header,
                        body->Ok_0.len() as int,
                        self.header.crc,
                    )
                    &&& h.header_size == spec_header_len(self@.header)
                    &&& self.header.header_size == 12 && self.header.crc is None
                        || self.header.header_size == 14 && self.header.crc is Some
                        ==> h.header_size == self.header.header_size
                    &&& h.data_size == body->Ok_0.len()
                    &&& final(buf)@.len() == h.header_size + h.data_size
                    &&& final(buf)@[0] == h.header_size
                    &&& final(buf)@.subrange(4, 8) == spec_u32_bytes(h.data_size, Endian::Little)
                    &&& final(buf)@.subrange(8, 12) == spec_tag_bytes()
                },
                Err(e) => spec_write(self@) == Err::<Seq<u8>, FitError>(e),
            },
    {
        let mut registry = DefinitionRegistry::new();
        let mut body: Vec<u8> = Vec::new();
        let ghost all = messages_view(self.data@);
        let mut i: usize = 0;
        proof {
            assert(all.skip(0) =~= all);
            let whole = spec_write_messages(all, empty_registry());
            if whole is Ok {
                assert(Seq::<u8>::empty() + whole->Ok_0 =~= whole->Ok_0);
            }
        }
        while i < self.data.len()
            invariant
                i <= self.data.len(),
                all == messages_view(self.data@),
                spec_write_messages(all, empty_registry()) == spec_prefixed_bytes(
                    body@,
                    spec_write_messages(all.skip(i as int), registry.view()),
                ),
            decreases self.data.len() - i,
        {
            let ghost before = body@;
            let ghost reg = registry.view();
            let ghost m = all[i as int];
            proof {
                assert(all.skip(i as int)[0] == m);
                assert(all.skip(i as int).skip(1) =~= all.skip(i as int + 1));
                assert(m == self.data@[i as int]@);
            }
            match &self.data[i] {
                FitMessage::Definition(msg) => {
                    if msg.header.dev_fields || msg.data.dev_num_fields.is_some()
                        || msg.data.dev_fields.is_some() {
                        return Err(FitError::UnsupportedFeature);
                    }
                    if !msg.header.is_wf() || !msg.header.definition {
                        return Err(FitError::InvalidArgument);
                    }
                    body.push(msg.header.to_bytes());
                    match msg.data.write(&mut body) {
                        Ok(_) => {},
                        Err(e) => {
                            return Err(e);
                        },
                    }
                    let local_num: u8 = msg.header.local_num;
                    registry.install(local_num, msg.data.clone_definition());
                    proof {
                        let piece = seq![msg.header.spec_to_bytes()] + spec_definition_bytes(
                            msg.data@,
                        );
                        assert(body@ =~= before + piece);
                        let rest = spec_write_messages(all.skip(i as int + 1), registry.view());
                        if rest is Ok {
                            assert(before + (piece + rest->Ok_0) =~= body@ + rest->Ok_0);
                        }
                    }
                },
                FitMessage::Data(msg) => {
                    if !msg.header.is_wf() || msg.header.definition {
                        return Err(FitError::InvalidArgument);
                    }
                    let slot: u8 = match registry.find_layout(
                        msg.header.local_num,
                        msg.data.message_type,
                    ) {
                        None => {
                            return Err(FitError::MissingDefinitionForEncode);
                        },
                        Some(s) => s,
                    };
                    let header = FitMessageHeader {
                        compressed_header: msg.header.compressed_header,
                        definition: msg.header.definition,
                        dev_fields: msg.header.dev_fields,
                        local_num: slot,
                        time_offset: msg.header.time_offset,
                    };
                    if !header.is_wf() {
                        return Err(FitError::MissingDefinitionForEncode);
                    }
                    let definition = match registry.lookup(slot) {
                        None => {
                            return Err(FitError::MissingDefinitionForEncode);
                        },
                        Some(def) => def,
                    };
                    body.push(header.to_bytes());
                    msg.data.write(&mut body, definition);
                    proof {
                        let piece = seq![header.spec_to_bytes()] + spec_write_fields(
                            msg.data@.values,
                            msg.data.message_type,
                            definition.endian,
                            definition.fields@,
                        );
                        assert(body@ =~= before + piece);
                        let rest = spec_write_messages(all.skip(i as int + 1), registry.view());
                        if rest is Ok {
                            assert(before + (piece + rest->Ok_0) =~= body@ + rest->Ok_0);
                        }
                    }
                },
            }
            i += 1;
        }
        proof {
            assert(all.skip(i as int) =~= Seq::<FitMessageView>::empty());
            assert(body@ + Seq::<u8>::empty() =~= body@);
        }
        if body.len() > 0xFFFF_FFFF {
            return Err(FitError::InvalidArgument);
        }
        let header = FitHeader {
            header_size: if self.header.crc.is_some() {
                14
            } else {
                12
            },
            protocol_version: self.header.protocol_version,
            profile_version: self.header.profile_version,
            data_size: body.len() as u32,
            data_type: self.header.data_type.clone(),
            crc: self.header.crc,
        };
        buf.clear();
        header.write(buf);
        proof {
            assert(buf@ =~= spec_header_bytes(header@));
            lemma_header_bytes_len(header@);
        }
        let ghost written = body@;
        buf.append(&mut body);
        proof {
            let fixed = seq![header.header_size, header.protocol_version] + spec_u16_bytes(
                header.profile_version,
                Endian::Little,
            ) + spec_u32_bytes(header.data_size, Endian::Little) + spec_tag_bytes();
            assert(buf@.subrange(0, 12) =~= fixed);
            assert(buf@.subrange(4, 8) =~= spec_u32_bytes(header.data_size, Endian::Little));
            assert(buf@.subrange(8, 12) =~= spec_tag_bytes());
        }
        Ok(header)
    }
}

impl Fit {
    /// Merges several files into one.
    pub fn merge(fits: Vec<Fit>) -> (r: Result<Fit, FitError>)
        ensures
            match r {
                Ok(fit) => spec_merge(fits_view(fits@)) == Ok::<FitView, FitError>(fit@),
                Err(e) => spec_merge(fits_view(fits@)) == Err::<FitView, FitError>(e),
            },
    {
        if fits.len() <= 1 {
            return Err(FitError::InvalidArgument);
        }
        let ghost all = fits_view(fits@);
        let mut data: Vec<FitMessage> = Vec::with_capacity(fits[0].data.len());
        let mut k: usize = 0;
        while k < fits[0].data.len()
            invariant
                fits@.len() >= 2,
                k <= fits@[0].data@.len(),
                data@.len() == k,
                forall|j: int| 0 <= j < k ==> (#[trigger] data@[j])@ == fits@[0].data@[j]@,
            decreases fits[0].data.len() - k,
        {
            data.push(fits[0].data[k].clone_message());
            k += 1;
        }
        let header = FitHeader {
            header_size: fits[0].header.header_size,
            protocol_version: fits[0].header.protocol_version,
            profile_version: fits[0].header.profile_version,
            data_size: fits[0].header.data_size,
            data_type: fits[0].header.data_type.clone(),
            crc: fits[0].header.crc,
        };
        let mut fit = Fit { header, data };
        proof {
            assert(messages_view(fit.data@) =~= spec_gathered(all, 1));
        }
        // find the sessions
        let mut sessions: Vec<Option<(usize, FitDataMessage)>> = Vec::new();
        sessions.push(fits[0].get_session());
        let mut i: usize = 1;
        while i < fits.len()
            invariant
                1 <= i <= fits@.len(),
                all == fits_view(fits@),
                fit.header@ == all[0].header,
                messages_view(fit.data@) == spec_gathered(all, i as int),
                sessions@.len() == i,
                forall|j: int|
                    0 <= j < i ==> session_matches(#[trigger] sessions@[j], fits@[j]@.data),
            decreases fits.len() - i,
        {
            let tmp = &fits[i];
            sessions.push(tmp.get_session());
            let ghost before = messages_view(fit.data@);
            let mut j: usize = 0;
            while j < tmp.data.len()
                invariant
                    j <= tmp.data@.len(),
                    fit.header@ == all[0].header,
                    messages_view(fit.data@) == before + spec_records(
                        messages_view(tmp.data@).take(j as int),
                    ),
                decreases tmp.data.len() - j,
            {
                proof {
                    let next = messages_view(tmp.data@).take(j as int + 1);
                    assert(next.drop_last() =~= messages_view(tmp.data@).take(j as int));
                    assert(next.last() == tmp.data@[j as int]@);
                }
                let ghost sofar = messages_view(fit.data@);
                let is_record: bool = match &tmp.data[j] {
                    FitMessage::Definition(_) => false,
                    FitMessage::Data(msg) => is_type(msg.data.message_type, MessageType::Record),
                };
                if is_record {
                    fit.data.push(tmp.data[j].clone_message());
                    proof {
                        assert(messages_view(fit.data@) =~= sofar.push(tmp.data@[j as int]@));
                        assert(messages_view(fit.data@) =~= before + spec_records(
                            messages_view(tmp.data@).take(j as int + 1),
                        ));
                    }
                }
                j += 1;
            }
            proof {
                assert(messages_view(tmp.data@).take(j as int) =~= messages_view(tmp.data@));
                assert(before + spec_records(Seq::<FitMessageView>::empty()) =~= before);
            }
            i += 1;
        }
        proof {
            lemma_sessions_match(fits@, sessions@, fits@.len() as int);
            lemma_first_index_match(fits@, sessions@, 0);
            assert(sessions@.take(fits@.len() as int) =~= sessions@);
            assert(all.take(fits@.len() as int) =~= all);
        }
        fit.replace_session(sessions);
        Ok(fit)
    }

    /// Puts the merged session of `sessions` in the place that the first of
    /// them has in its own file.
    fn replace_session(&mut self, sessions: Vec<Option<(usize, FitDataMessage)>>)
        ensures
            final(self).header == old(self).header,
            messages_view(final(self).data@) == spec_replace_session(
                messages_view(old(self).data@),
                spec_first_given(sessions@, 0),
                spec_merge_sessions(spec_given(sessions@)),
            ),
    {
        let mut index: Option<usize> = None;
        let mut session_vec: Vec<FitDataMessage> = Vec::new();
        let mut i: usize = 0;
        proof {
            assert(data_records_view(session_vec@) =~= spec_given(sessions@.take(0)));
        }
        while i < sessions.len()
            invariant
                i <= sessions.len(),
                data_records_view(session_vec@) == spec_given(sessions@.take(i as int)),
                match index {
                    Some(n) => spec_first_given(sessions@, 0) == Some(n as int),
                    None => spec_first_given(sessions@, 0) == spec_first_given(
                        sessions@,
                        i as int,
                    ),
                },
            decreases sessions.len() - i,
        {
            proof {
                let next = sessions@.take(i as int + 1);
                assert(next.drop_last() =~= sessions@.take(i as int));
                assert(next.last() == sessions@[i as int]);
            }
            let ghost sofar = data_records_view(session_vec@);
            match &sessions[i] {
                None => {},
                Some((n, s)) => {
                    if index.is_none() {
                        index = Some(*n);
                    }
                    session_vec.push(s.clone_message());
                    proof {
                        assert(data_records_view(session_vec@) =~= sofar.push(
                            FitMessageView::Data(s.header, s.data@),
                        ));
                    }
                },
            }
            i += 1;
        }
        proof {
            assert(sessions@.take(i as int) =~= sessions@);
        }
        let session = Fit::merge_sessions(session_vec);
        match session {
            None => {},
            Some(session) => {
                match index {
                    Some(n) => {
                        if n < self.data.len() {
                            let ghost before = messages_view(self.data@);
                            let ghost m = FitMessageView::Data(session.header, session.data@);
                            self.data.set(n, FitMessage::Data(session));
                            proof {
                                assert(messages_view(self.data@) =~= before.update(n as int, m));
                            }
                        }
                    },
                    None => {},
                }
            },
        }
    }

    /// The one session that stands for several: the first of them, with its
    /// summary fields recomputed over all of them.
    fn merge_sessions(sessions: Vec<FitDataMessage>) -> (r: Option<FitDataMessage>)
        ensures
            match r {
                Some(m) => spec_merge_sessions(data_records_view(sessions@)) == Some(
                    FitMessageView::Data(m.header, m.data@),
                ),
                None => spec_merge_sessions(data_records_view(sessions@)) is None,
            },
    {
        if sessions.len() == 0 {
            return None;
        }
        let mut merged_session = sessions[0].clone_message();
        let ghost all = Seq::new(
            sessions@.len(),
            |i: int| spec_data_of(data_records_view(sessions@)[i]),
        );
        proof {
            assert(all =~= session_views(sessions@));
        }
        let mut n: usize = 0;
        while n < SUMMARY_RULE_COUNT
            invariant
                n <= SUMMARY_RULE_COUNT,
                sessions@.len() > 0,
                all == session_views(sessions@),
                merged_session.header == sessions@[0].header,
                merged_session.data.message_type == sessions@[0].data.message_type,
                fields_view(merged_session.data.values@) == spec_apply_rules(
                    all[0].values,
                    all,
                    n as int,
                ),
            decreases SUMMARY_RULE_COUNT - n,
        {
            let rule = SUMMARY_RULES[n];
            match aggregate(rule.1, rule.2, rule.0, &sessions) {
                Some(value) => {
                    update_field(&mut merged_session.data.values, rule.0, value);
                },
                None => {},
            }
            n += 1;
        }
        Some(merged_session)
    }

    /// The first session message of the file and its place.
    pub fn get_session(&self) -> (r: Option<(usize, FitDataMessage)>)
        ensures
            session_matches(r, self@.data),
    {
        let mut index: usize = 0;
        while index < self.data.len()
            invariant
                index <= self.data.len(),
                spec_session_index(self@.data) == spec_session_from(self@.data, index as int),
            decreases self.data.len() - index,
        {
            match &self.data[index] {
                FitMessage::Definition(_) => {},
                FitMessage::Data(msg) => {
                    if is_type(msg.data.message_type, MessageType::Session) {
                        return Some((index, msg.clone_message()));
                    }
                },
            }
            index += 1;
        }
        None
    }
}

/// Whether `r` is the first session message of a file and its place, or
/// `None` for a file that has none.
pub open spec fn session_matches(r: Option<(usize, FitDataMessage)>, data: Seq<FitMessageView>) -> bool {
    match r {
        Some((i, m)) => {
            &&& spec_session_index(data) == Some(i as int)
            &&& i < data.len()
            &&& data[i as int] == FitMessageView::Data(m.header, m.data@)
        },
        None => spec_session_index(data) is None,
    }
}

/// The sessions that are given, in order.
pub open spec fn spec_given(sessions: Seq<Option<(usize, FitDataMessage)>>) -> Seq<FitMessageView>
    decreases sessions.len(),
{
    if sessions.len() == 0 {
        Seq::empty()
    } else {
        let rest = spec_given(sessions.drop_last());
        match sessions.last() {
            Some((_, m)) => rest.push(FitMessageView::Data(m.header, m.data@)),
            None => rest,
        }
    }
}

/// The place of the first session that is given from `from` on.
pub open spec fn spec_first_given(sessions: Seq<Option<(usize, FitDataMessage)>>, from: int) -> Option<
    int,
>
    decreases sessions.len() - from,
{
    if from < 0 || from >= sessions.len() {
        None
    } else {
        match sessions[from] {
            Some((i, _)) => Some(i as int),
            None => spec_first_given(sessions, from + 1),
        }
    }
}

/// The sessions found file by file are the sessions of the files.
proof fn lemma_sessions_match(
    fits: Seq<Fit>,
    sessions: Seq<Option<(usize, FitDataMessage)>>,
    n: int,
)
    requires
        0 <= n <= fits.len(),
        n <= sessions.len(),
        forall|j: int| 0 <= j < n ==> session_matches(#[trigger] sessions[j], fits[j]@.data),
    ensures
        spec_given(sessions.take(n)) == spec_sessions(fits_view(fits).take(n)),
    decreases n,
{
    if n > 0 {
        lemma_sessions_match(fits, sessions, n - 1);
        assert(sessions.take(n).drop_last() =~= sessions.take(n - 1));
        assert(fits_view(fits).take(n).drop_last() =~= fits_view(fits).take(n - 1));
        assert(session_matches(sessions[n - 1], fits[n - 1]@.data));
    }
}

/// The place of the first session found is that of the first file that has
/// one.
proof fn lemma_first_index_match(
    fits: Seq<Fit>,
    sessions: Seq<Option<(usize, FitDataMessage)>>,
    from: int,
)
    requires
        0 <= from,
        sessions.len() == fits.len(),
        forall|j: int|
            0 <= j < fits.len() ==> session_matches(#[trigger] sessions[j], fits[j]@.data),
    ensures
        spec_first_given(sessions, from) == spec_first_session_index(fits_view(fits), from),
    decreases fits.len() - from,
{
    if from < fits.len() {
        assert(session_matches(sessions[from], fits[from]@.data));
        lemma_first_index_match(fits, sessions, from + 1);
    }
}

/// Whether two message types are the same.
fn is_type(a: MessageType, b: MessageType) -> (r: bool)
    ensures
        r == (a == b),
{
    a == b
}

/// A header is written in twelve bytes, or in fourteen with its checksum.
pub proof fn lemma_header_bytes_len(h: FitHeaderView)
    ensures
        spec_header_bytes(h).len() == spec_header_len(h),
{
}

} // verus!
