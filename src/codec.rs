use vstd::prelude::*;

use borsh::BorshDeserialize;
use mpl_core::types::PluginAuthorityPair;
use vstd::bytes::{
    lemma_auto_spec_u32_to_from_le_bytes, spec_u32_from_le_bytes, spec_u32_to_le_bytes,
    u32_from_le_bytes, u32_to_le_bytes,
};
use vstd::slice::{slice_subrange, slice_to_vec};
use vstd::utf8::{decode_utf8, encode_utf8, valid_utf8};

verus! {

/// Where the asset protocol keeps a new asset's data.
#[derive(Clone, Copy, Debug, PartialEq, Eq, Structural)]
pub enum DataState {
    AccountState,
    LedgerState,
}

/// A plugin list in its wire encoding: a little-endian `u32` count, then each
/// plugin/authority pair as the asset protocol lays it out.
#[derive(Debug)]
pub struct PluginList {
    pub encoded: Vec<u8>,
}

impl View for PluginList {
    type V = Seq<u8>;

    open spec fn view(&self) -> Seq<u8> {
        self.encoded@
    }
}

/// Arguments of the create operation.
#[derive(Debug)]
pub struct CreateNftV1InstructionData {
    pub data_state: Option<DataState>,
    pub name: String,
    pub uri: String,
    pub plugins: Option<PluginList>,
}

/// Arguments of the update operation.
#[derive(Debug)]
pub struct UpdateNftV1InstructionData {
    pub new_name: Option<String>,
    pub new_uri: Option<String>,
}

/// A decoded instruction: exactly one operation and its arguments.
#[derive(Debug)]
pub enum Instructions {
    CreateNftV1(CreateNftV1InstructionData),
    UpdateNftV1(UpdateNftV1InstructionData),
    TransferNftV1,
}

/// Why an instruction payload could not be decoded.
#[derive(Clone, Copy, Debug, PartialEq, Eq, Structural)]
pub enum DecodeError {
    /// The input ended inside a tag or a length prefix.
    Truncated,
    /// An operation or data-state tag that no variant has.
    UnknownDiscriminant,
    /// An option tag other than 0 or 1.
    InvalidOptionTag,
    /// A length prefix larger than what is left of the input.
    LengthExceedsInput,
    /// Text that is not UTF-8.
    InvalidUtf8,
    /// Bytes that are not, in full, one encoded plugin list.
    InvalidPluginList,
    /// Input left over after the operation's last field.
    TrailingBytes,
}

/// The create arguments as mathematical values.
pub struct CreateDataView {
    pub data_state: Option<DataState>,
    pub name: Seq<char>,
    pub uri: Seq<char>,
    pub plugins: Option<Seq<u8>>,
}

/// The update arguments as mathematical values.
pub struct UpdateDataView {
    pub new_name: Option<Seq<char>>,
    pub new_uri: Option<Seq<char>>,
}

/// An instruction as a mathematical value.
pub enum InstructionView {
    CreateNftV1(CreateDataView),
    UpdateNftV1(UpdateDataView),
    TransferNftV1,
}

pub open spec fn text_view(o: Option<String>) -> Option<Seq<char>> {
    match o {
        None => None,
        Some(s) => Some(s@),
    }
}

pub open spec fn plugins_view(o: Option<PluginList>) -> Option<Seq<u8>> {
    match o {
        None => None,
        Some(p) => Some(p@),
    }
}

impl View for CreateNftV1InstructionData {
    type V = CreateDataView;

    open spec fn view(&self) -> CreateDataView {
        CreateDataView {
            data_state: self.data_state,
            name: self.name@,
            uri: self.uri@,
            plugins: plugins_view(self.plugins),
        }
    }
}

impl View for UpdateNftV1InstructionData {
    type V = UpdateDataView;

    open spec fn view(&self) -> UpdateDataView {
        UpdateDataView { new_name: text_view(self.new_name), new_uri: text_view(self.new_uri) }
    }
}

impl View for Instructions {
    type V = InstructionView;

    open spec fn view(&self) -> InstructionView {
        match self {
            Instructions::CreateNftV1(d) => InstructionView::CreateNftV1(d@),
            Instructions::UpdateNftV1(d) => InstructionView::UpdateNftV1(d@),
            Instructions::TransferNftV1 => InstructionView::TransferNftV1,
        }
    }
}

/// Holds when the bytes are, in full, one encoded list of the asset protocol's
/// plugin/authority pairs.
pub uninterp spec fn is_plugin_list_encoding(b: Seq<u8>) -> bool;

/// Relies on borsh's `BorshDeserialize::try_from_slice` for
/// `Vec<mpl_core::types::PluginAuthorityPair>`: it succeeds exactly when the bytes
/// are one encoded list and nothing follows it.
#[verifier::external_body]
fn plugin_list_decodes(b: &[u8]) -> (r: bool)
    ensures
        r == is_plugin_list_encoding(b@),
{
    <Vec<PluginAuthorityPair> as BorshDeserialize>::try_from_slice(b).is_ok()
}

/// Relies on `std::str::from_utf8`: it succeeds exactly on valid UTF-8, and then
/// the text is what the bytes encode.
#[verifier::external_body]
fn text_of<'a>(b: &'a [u8]) -> (r: Option<&'a str>)
    ensures
        r is Some <==> valid_utf8(b@),
        r matches Some(s) ==> s@ == decode_utf8(b@),
{
    std::str::from_utf8(b).ok()
}

// ---------------------------------------------------------------------------
// The wire format, as a parser over byte sequences.

/// A length-prefixed UTF-8 string, and the rest of the input.
#[verifier::opaque]
pub open spec fn parse_string(b: Seq<u8>) -> Result<(Seq<char>, Seq<u8>), DecodeError> {
    if b.len() < 4 {
        Err(DecodeError::Truncated)
    } else {
        let n = spec_u32_from_le_bytes(b.take(4)) as int;
        let rest = b.skip(4);
        if n > rest.len() {
            Err(DecodeError::LengthExceedsInput)
        } else if !valid_utf8(rest.take(n)) {
            Err(DecodeError::InvalidUtf8)
        } else {
            Ok((decode_utf8(rest.take(n)), rest.skip(n)))
        }
    }
}

/// An option tag: `false` for 0, `true` for 1.
pub open spec fn parse_option_tag(b: Seq<u8>) -> Result<(bool, Seq<u8>), DecodeError> {
    if b.len() == 0 {
        Err(DecodeError::Truncated)
    } else if b[0] == 0 {
        Ok((false, b.skip(1)))
    } else if b[0] == 1 {
        Ok((true, b.skip(1)))
    } else {
        Err(DecodeError::InvalidOptionTag)
    }
}

pub open spec fn parse_opt_string(b: Seq<u8>) -> Result<(Option<Seq<char>>, Seq<u8>), DecodeError> {
    match parse_option_tag(b) {
        Err(e) => Err(e),
        Ok((false, rest)) => Ok((None, rest)),
        Ok((true, rest)) => match parse_string(rest) {
            Err(e) => Err(e),
            Ok((s, rest2)) => Ok((Some(s), rest2)),
        },
    }
}

pub open spec fn parse_opt_data_state(b: Seq<u8>) -> Result<
    (Option<DataState>, Seq<u8>),
    DecodeError,
> {
    match parse_option_tag(b) {
        Err(e) => Err(e),
        Ok((false, rest)) => Ok((None, rest)),
        Ok((true, rest)) => if rest.len() == 0 {
            Err(DecodeError::Truncated)
        } else if rest[0] == 0 {
            Ok((Some(DataState::AccountState), rest.skip(1)))
        } else if rest[0] == 1 {
            Ok((Some(DataState::LedgerState), rest.skip(1)))
        } else {
            Err(DecodeError::UnknownDiscriminant)
        },
    }
}

/// The optional plugin list, which runs to the end of the input.
pub open spec fn parse_plugins(b: Seq<u8>) -> Result<Option<Seq<u8>>, DecodeError> {
    match parse_option_tag(b) {
        Err(e) => Err(e),
        Ok((false, rest)) => if rest.len() == 0 {
            Ok(None)
        } else {
            Err(DecodeError::TrailingBytes)
        },
        Ok((true, rest)) => if is_plugin_list_encoding(rest) {
            Ok(Some(rest))
        } else {
            Err(DecodeError::InvalidPluginList)
        },
    }
}

pub open spec fn parse_create(b: Seq<u8>) -> Result<CreateDataView, DecodeError> {
    match parse_opt_data_state(b) {
        Err(e) => Err(e),
        Ok((data_state, b1)) => match parse_string(b1) {
            Err(e) => Err(e),
            Ok((name, b2)) => match parse_string(b2) {
                Err(e) => Err(e),
                Ok((uri, b3)) => match parse_plugins(b3) {
                    Err(e) => Err(e),
                    Ok(plugins) => Ok(CreateDataView { data_state, name, uri, plugins }),
                },
            },
        },
    }
}

pub open spec fn parse_update(b: Seq<u8>) -> Result<UpdateDataView, DecodeError> {
    match parse_opt_string(b) {
        Err(e) => Err(e),
        Ok((new_name, b1)) => match parse_opt_string(b1) {
            Err(e) => Err(e),
            Ok((new_uri, b2)) => if b2.len() == 0 {
                Ok(UpdateDataView { new_name, new_uri })
            } else {
                Err(DecodeError::TrailingBytes)
            },
        },
    }
}

/// The whole payload: an operation tag, then that operation's fields, then nothing.
pub open spec fn parse_instruction(b: Seq<u8>) -> Result<InstructionView, DecodeError> {
    if b.len() == 0 {
        Err(DecodeError::Truncated)
    } else if b[0] == 0 {
        match parse_create(b.skip(1)) {
            Err(e) => Err(e),
            Ok(d) => Ok(InstructionView::CreateNftV1(d)),
        }
    } else if b[0] == 1 {
        match parse_update(b.skip(1)) {
            Err(e) => Err(e),
            Ok(d) => Ok(InstructionView::UpdateNftV1(d)),
        }
    } else if b[0] == 2 {
        if b.len() == 1 {
            Ok(InstructionView::TransferNftV1)
        } else {
            Err(DecodeError::TrailingBytes)
        }
    } else {
        Err(DecodeError::UnknownDiscriminant)
    }
}

// ---------------------------------------------------------------------------
// The wire format, as an encoder.

/// The text's UTF-8 length fits the `u32` prefix.
pub open spec fn text_fits(s: Seq<char>) -> bool {
    encode_utf8(s).len() <= u32::MAX
}

pub open spec fn encode_string(s: Seq<char>) -> Seq<u8> {
    spec_u32_to_le_bytes(encode_utf8(s).len() as u32) + encode_utf8(s)
}

pub open spec fn encode_opt_string(o: Option<Seq<char>>) -> Seq<u8> {
    match o {
        None => seq![0u8],
        Some(s) => seq![1u8] + encode_string(s),
    }
}

pub open spec fn encode_opt_data_state(o: Option<DataState>) -> Seq<u8> {
    match o {
        None => seq![0u8],
        Some(DataState::AccountState) => seq![1u8, 0u8],
        Some(DataState::LedgerState) => seq![1u8, 1u8],
    }
}

pub open spec fn encode_plugins(o: Option<Seq<u8>>) -> Seq<u8> {
    match o {
        None => seq![0u8],
        Some(p) => seq![1u8] + p,
    }
}

pub open spec fn encode_instruction(op: InstructionView) -> Seq<u8> {
    match op {
        InstructionView::CreateNftV1(d) => seq![0u8] + encode_opt_data_state(d.data_state)
            + encode_string(d.name) + encode_string(d.uri) + encode_plugins(d.plugins),
        InstructionView::UpdateNftV1(d) => seq![1u8] + encode_opt_string(d.new_name)
            + encode_opt_string(d.new_uri),
        InstructionView::TransferNftV1 => seq![2u8],
    }
}

/// Every text of the instruction fits its length prefix.
pub open spec fn texts_fit(op: InstructionView) -> bool {
    match op {
        InstructionView::CreateNftV1(d) => text_fits(d.name) && text_fits(d.uri),
        InstructionView::UpdateNftV1(d) => (d.new_name matches Some(s) ==> text_fits(s)) && (
        d.new_uri matches Some(s) ==> text_fits(s)),
        InstructionView::TransferNftV1 => true,
    }
}

/// An instruction that can be encoded and whose plugin list, if any, is a real one.
pub open spec fn well_formed(op: InstructionView) -> bool {
    &&& texts_fit(op)
    &&& op matches InstructionView::CreateNftV1(d) ==> (d.plugins matches Some(p)
        ==> is_plugin_list_encoding(p))
}

// ---------------------------------------------------------------------------
// Decoding.

/// Reads a length-prefixed UTF-8 string at `pos`.
fn read_string(b: &[u8], pos: usize) -> (r: Result<(String, usize), DecodeError>)
    requires
        pos <= b@.len(),
    ensures
        match r {
            Ok((s, p)) => pos <= p <= b@.len() && parse_string(b@.skip(pos as int)) == Ok::<_, DecodeError>(
                (s@, b@.skip(p as int)),
            ),
            Err(e) => parse_string(b@.skip(pos as int)) == Err::<(Seq<char>, Seq<u8>), DecodeError>(e),
        },
{
    reveal(parse_string);
    let len = b.len();
    if len - pos < 4 {
        return Err(DecodeError::Truncated);
    }
    let prefix = slice_subrange(b, pos, pos + 4);
    let n = u32_from_le_bytes(prefix) as usize;
    let start = pos + 4;
    let ghost t = b@.skip(pos as int);
    assert(t.take(4) =~= prefix@);
    assert(t.skip(4) =~= b@.skip(start as int));
    if n > len - start {
        return Err(DecodeError::LengthExceedsInput);
    }
    let end = start + n;
    let text = slice_subrange(b, start, end);
    assert(b@.skip(start as int).take(n as int) =~= text@);
    assert(b@.skip(start as int).skip(n as int) =~= b@.skip(end as int));
    match text_of(text) {
        None => Err(DecodeError::InvalidUtf8),
        Some(s) => Ok((s.to_owned(), end)),
    }
}

/// Reads an option tag at `pos`.
fn read_option_tag(b: &[u8], pos: usize) -> (r: Result<(bool, usize), DecodeError>)
    requires
        pos <= b@.len(),
    ensures
        match r {
            Ok((t, p)) => pos <= p <= b@.len() && parse_option_tag(b@.skip(pos as int)) == Ok::<_, DecodeError>(
                (t, b@.skip(p as int)),
            ),
            Err(e) => parse_option_tag(b@.skip(pos as int)) == Err::<(bool, Seq<u8>), DecodeError>(e),
        },
{
    if pos == b.len() {
        return Err(DecodeError::Truncated);
    }
    assert(b@.skip(pos as int).skip(1) =~= b@.skip(pos + 1));
    let tag = b[pos];
    if tag == 0 {
        Ok((false, pos + 1))
    } else if tag == 1 {
        Ok((true, pos + 1))
    } else {
        Err(DecodeError::InvalidOptionTag)
    }
}

fn read_opt_string(b: &[u8], pos: usize) -> (r: Result<(Option<String>, usize), DecodeError>)
    requires
        pos <= b@.len(),
    ensures
        match r {
            Ok((s, p)) => pos <= p <= b@.len() && parse_opt_string(b@.skip(pos as int)) == Ok::<_, DecodeError>(
                (text_view(s), b@.skip(p as int)),
            ),
            Err(e) => parse_opt_string(b@.skip(pos as int)) == Err::<(Option<Seq<char>>, Seq<u8>), DecodeError>(e),
        },
{
    let (present, p) = read_option_tag(b, pos)?;
    if !present {
        return Ok((None, p));
    }
    let (s, p2) = read_string(b, p)?;
    Ok((Some(s), p2))
}

fn read_opt_data_state(b: &[u8], pos: usize) -> (r: Result<(Option<DataState>, usize), DecodeError>)
    requires
        pos <= b@.len(),
    ensures
        match r {
            Ok((d, p)) => pos <= p <= b@.len() && parse_opt_data_state(b@.skip(pos as int)) == Ok::<_, DecodeError>(
                (d, b@.skip(p as int)),
            ),
            Err(e) => parse_opt_data_state(b@.skip(pos as int)) == Err::<(Option<DataState>, Seq<u8>), DecodeError>(e),
        },
{
    let (present, p) = read_option_tag(b, pos)?;
    if !present {
        return Ok((None, p));
    }
    if p == b.len() {
        return Err(DecodeError::Truncated);
    }
    assert(b@.skip(p as int).skip(1) =~= b@.skip(p + 1));
    let tag = b[p];
    if tag == 0 {
        Ok((Some(DataState::AccountState), p + 1))
    } else if tag == 1 {
        Ok((Some(DataState::LedgerState), p + 1))
    } else {
        Err(DecodeError::UnknownDiscriminant)
    }
}

/// Reads the optional plugin list, which must run to the end of the input.
fn read_plugins(b: &[u8], pos: usize) -> (r: Result<Option<PluginList>, DecodeError>)
    requires
        pos <= b@.len(),
    ensures
        match r {
            Ok(o) => parse_plugins(b@.skip(pos as int)) == Ok::<_, DecodeError>(plugins_view(o)),
            Err(e) => parse_plugins(b@.skip(pos as int)) == Err::<Option<Seq<u8>>, DecodeError>(e),
        },
{
    let (present, p) = read_option_tag(b, pos)?;
    if !present {
        if p == b.len() {
            return Ok(None);
        } else {
            return Err(DecodeError::TrailingBytes);
        }
    }
    let rest = slice_subrange(b, p, b.len());
    assert(rest@ =~= b@.skip(p as int));
    if plugin_list_decodes(rest) {
        Ok(Some(PluginList { encoded: slice_to_vec(rest) }))
    } else {
        Err(DecodeError::InvalidPluginList)
    }
}

fn read_create(b: &[u8], pos: usize) -> (r: Result<CreateNftV1InstructionData, DecodeError>)
    requires
        pos <= b@.len(),
    ensures
        match r {
            Ok(d) => parse_create(b@.skip(pos as int)) == Ok::<_, DecodeError>(d@),
            Err(e) => parse_create(b@.skip(pos as int)) == Err::<CreateDataView, DecodeError>(e),
        },
{
    let (data_state, p1) = read_opt_data_state(b, pos)?;
    let (name, p2) = read_string(b, p1)?;
    let (uri, p3) = read_string(b, p2)?;
    let plugins = read_plugins(b, p3)?;
    Ok(CreateNftV1InstructionData { data_state, name, uri, plugins })
}

fn read_update(b: &[u8], pos: usize) -> (r: Result<UpdateNftV1InstructionData, DecodeError>)
    requires
        pos <= b@.len(),
    ensures
        match r {
            Ok(d) => parse_update(b@.skip(pos as int)) == Ok::<_, DecodeError>(d@),
            Err(e) => parse_update(b@.skip(pos as int)) == Err::<UpdateDataView, DecodeError>(e),
        },
{
    let (new_name, p1) = read_opt_string(b, pos)?;
    let (new_uri, p2) = read_opt_string(b, p1)?;
    if p2 != b.len() {
        return Err(DecodeError::TrailingBytes);
    }
    Ok(UpdateNftV1InstructionData { new_name, new_uri })
}

impl Instructions {
    /// Decodes a whole instruction payload.
    pub fn try_from_slice(data: &[u8]) -> (r: Result<Instructions, DecodeError>)
        ensures
            match r {
                Ok(op) => parse_instruction(data@) == Ok::<_, DecodeError>(op@),
                Err(e) => parse_instruction(data@) == Err::<InstructionView, DecodeError>(e),
            },
    {
        if data.len() == 0 {
            return Err(DecodeError::Truncated);
        }
        let tag = data[0];
        if tag == 0 {
            let d = read_create(data, 1)?;
            Ok(Instructions::CreateNftV1(d))
        } else if tag == 1 {
            let d = read_update(data, 1)?;
            Ok(Instructions::UpdateNftV1(d))
        } else if tag == 2 {
            if data.len() == 1 {
                Ok(Instructions::TransferNftV1)
            } else {
                Err(DecodeError::TrailingBytes)
            }
        } else {
            Err(DecodeError::UnknownDiscriminant)
        }
    }
}

// ---------------------------------------------------------------------------
// Encoding.

fn push_text(out: &mut Vec<u8>, s: &String)
    requires
        text_fits(s@),
    ensures
        final(out)@ == old(out)@ + encode_string(s@),
{
    let bytes = s.as_str().as_bytes();
    let mut prefix = u32_to_le_bytes(bytes.len() as u32);
    let mut body = slice_to_vec(bytes);
    out.append(&mut prefix);
    out.append(&mut body);
    assert(final(out)@ =~= old(out)@ + encode_string(s@));
}

fn push_opt_text(out: &mut Vec<u8>, o: &Option<String>)
    requires
        o matches Some(s) ==> text_fits(s@),
    ensures
        final(out)@ == old(out)@ + encode_opt_string(text_view(*o)),
{
    match o {
        None => {
            out.push(0);
            assert(final(out)@ =~= old(out)@ + seq![0u8]);
        },
        Some(s) => {
            out.push(1);
            push_text(out, s);
            assert(final(out)@ =~= old(out)@ + (seq![1u8] + encode_string(s@)));
        },
    }
}

impl Instructions {
    /// Encodes the instruction in the wire format that `try_from_slice` reads.
    pub fn encode(&self) -> (r: Vec<u8>)
        requires
            texts_fit(self@),
        ensures
            r@ == encode_instruction(self@),
    {
        let mut out: Vec<u8> = Vec::new();
        match self {
            Instructions::CreateNftV1(d) => {
                out.push(0);
                match d.data_state {
                    None => out.push(0),
                    Some(DataState::AccountState) => {
                        out.push(1);
                        out.push(0);
                    },
                    Some(DataState::LedgerState) => {
                        out.push(1);
                        out.push(1);
                    },
                }
                let ghost head = out@;
                assert(head =~= seq![0u8] + encode_opt_data_state(d.data_state));
                push_text(&mut out, &d.name);
                push_text(&mut out, &d.uri);
                let ghost mid = out@;
                match &d.plugins {
                    None => out.push(0),
                    Some(p) => {
                        out.push(1);
                        let mut body = p.encoded.clone();
                        out.append(&mut body);
                    },
                }
                assert(out@ =~= mid + encode_plugins(plugins_view(d.plugins)));
            },
            Instructions::UpdateNftV1(d) => {
                out.push(1);
                assert(out@ =~= seq![1u8]);
                push_opt_text(&mut out, &d.new_name);
                push_opt_text(&mut out, &d.new_uri);
            },
            Instructions::TransferNftV1 => {
                out.push(2);
                assert(out@ =~= seq![2u8]);
            },
        }
        out
    }
}

// ---------------------------------------------------------------------------
// Round trip.

proof fn lemma_string_round_trip(s: Seq<char>, rest: Seq<u8>)
    requires
        text_fits(s),
    ensures
        parse_string(encode_string(s) + rest) == Ok::<_, DecodeError>((s, rest)),
{
    broadcast use vstd::utf8::group_utf8_lib;

    reveal(parse_string);
    lemma_auto_spec_u32_to_from_le_bytes();
    let e = encode_utf8(s);
    let n = e.len() as u32;
    let b = encode_string(s) + rest;
    assert(b.take(4) =~= spec_u32_to_le_bytes(n));
    assert(b.skip(4) =~= e + rest);
    assert((e + rest).take(e.len() as int) =~= e);
    assert((e + rest).skip(e.len() as int) =~= rest);
}

proof fn lemma_opt_string_round_trip(o: Option<Seq<char>>, rest: Seq<u8>)
    requires
        o matches Some(s) ==> text_fits(s),
    ensures
        parse_opt_string(encode_opt_string(o) + rest) == Ok::<_, DecodeError>((o, rest)),
{
    let b = encode_opt_string(o) + rest;
    match o {
        None => {
            assert(b.skip(1) =~= rest);
        },
        Some(s) => {
            assert(b.skip(1) =~= encode_string(s) + rest);
            lemma_string_round_trip(s, rest);
        },
    }
}

proof fn lemma_data_state_round_trip(o: Option<DataState>, rest: Seq<u8>)
    ensures
        parse_opt_data_state(encode_opt_data_state(o) + rest) == Ok::<_, DecodeError>((o, rest)),
{
    let b = encode_opt_data_state(o) + rest;
    match o {
        None => {
            assert(b.skip(1) =~= rest);
        },
        Some(_) => {
            assert(b.skip(1)[0] == b[1]);
            assert(b.skip(1).skip(1) =~= rest);
        },
    }
}

proof fn lemma_plugins_round_trip(o: Option<Seq<u8>>)
    requires
        o matches Some(p) ==> is_plugin_list_encoding(p),
    ensures
        parse_plugins(encode_plugins(o)) == Ok::<_, DecodeError>(o),
{
    let b = encode_plugins(o);
    match o {
        None => {
            assert(b.skip(1) =~= Seq::<u8>::empty());
        },
        Some(p) => {
            assert(b.skip(1) =~= p);
        },
    }
}

proof fn lemma_create_round_trip(d: CreateDataView)
    requires
        text_fits(d.name),
        text_fits(d.uri),
        d.plugins matches Some(p) ==> is_plugin_list_encoding(p),
    ensures
        parse_create(
            encode_opt_data_state(d.data_state) + (encode_string(d.name) + (encode_string(d.uri)
                + encode_plugins(d.plugins))),
        ) == Ok::<_, DecodeError>(d),
{
    let n = encode_string(d.name);
    let u = encode_string(d.uri);
    let p = encode_plugins(d.plugins);
    lemma_data_state_round_trip(d.data_state, n + (u + p));
    lemma_string_round_trip(d.name, u + p);
    lemma_string_round_trip(d.uri, p);
    lemma_plugins_round_trip(d.plugins);
}

proof fn lemma_update_round_trip(d: UpdateDataView)
    requires
        d.new_name matches Some(s) ==> text_fits(s),
        d.new_uri matches Some(s) ==> text_fits(s),
    ensures
        parse_update(encode_opt_string(d.new_name) + encode_opt_string(d.new_uri)) == Ok::<
            _,
            DecodeError,
        >(d),
{
    let u = encode_opt_string(d.new_uri);
    lemma_opt_string_round_trip(d.new_name, u);
    lemma_opt_string_round_trip(d.new_uri, Seq::<u8>::empty());
    assert(u + Seq::<u8>::empty() =~= u);
}

/// Decoding the encoding of a well-formed instruction gives the instruction back.
pub proof fn lemma_round_trip(op: InstructionView)
    requires
        well_formed(op),
    ensures
        parse_instruction(encode_instruction(op)) == Ok::<_, DecodeError>(op),
{
    match op {
        InstructionView::CreateNftV1(d) => {
            let rest = encode_opt_data_state(d.data_state) + (encode_string(d.name) + (
            encode_string(d.uri) + encode_plugins(d.plugins)));
            let b = seq![0u8] + rest;
            assert(encode_instruction(op) =~= b);
            assert(b.skip(1) =~= rest);
            lemma_create_round_trip(d);
        },
        InstructionView::UpdateNftV1(d) => {
            let rest = encode_opt_string(d.new_name) + encode_opt_string(d.new_uri);
            let b = seq![1u8] + rest;
            assert(encode_instruction(op) =~= b);
            assert(b.skip(1) =~= rest);
            lemma_update_round_trip(d);
        },
        InstructionView::TransferNftV1 => {},
    }
}

} // verus!
