//! Receipt-printer job encoding: a list of commands becomes the ordered byte
//! writes sent to the device.
use vstd::prelude::*;
use vstd::utf8::{encode_utf8, is_ascii_chars};
use crate::text::str_equals;

verus! {

/// Largest QR payload, in bytes, that the printer accepts.
pub const QR_CAPACITY: usize = 230;

/// Physical paper width in millimetres.
pub const PAPER_WIDTH_MM: u64 = 80;

/// Printer resolution in dots per inch.
pub const PRINTER_DPI: u64 = 180;

/// What `encoding_rs::EUC_KR.encode` makes of a text: the bytes, and whether
/// some character could not be mapped.
pub uninterp spec fn euc_kr_of(s: Seq<char>) -> (Seq<u8>, bool);

/// Relies on `encoding_rs::Encoding::encode` with EUC-KR: the output depends on
/// the text alone, and ASCII text is returned as its own bytes with no error.
#[verifier::external_body]
fn encode_euc_kr(s: &str) -> (r: (Vec<u8>, bool))
    ensures
        (r.0@, r.1) == euc_kr_of(s@),
        is_ascii_chars(s@) ==> r.0@ == encode_utf8(s@) && !r.1,
{
    let (bytes, _, had_errors) = encoding_rs::EUC_KR.encode(s);
    (bytes.into_owned(), had_errors)
}

/// The kinds of print command.
#[derive(Clone, Copy, Debug, PartialEq, Eq, Structural)]
pub enum PrintCommandKind {
    Bold,
    Unbold,
    Alignment,
    Text,
    NormalText,
    SmallText,
    MediumText,
    LargeText,
    KoreanText,
    BlankLine,
    FullCut,
    ClearAll,
    QrCode,
}

/// One command of a print job: its tag and an optional payload.
#[derive(Clone, Debug)]
pub struct PrintCommand {
    pub command_type: String,
    pub value: Option<String>,
}

/// A print job: the device to print on and its commands, in order.
#[derive(Clone, Debug)]
pub struct PrintOptions {
    pub port_name: String,
    pub baud_rate: u32,
    pub commands: Vec<PrintCommand>,
}

/// Why a print job stopped.
#[derive(Clone, Debug)]
pub enum PrintError {
    /// The command needs a payload and has none.
    MissingValue(PrintCommandKind),
    /// The alignment is not one of `left`, `center`, `right`.
    InvalidAlignment(String),
    /// Some character of a Korean text has no EUC-KR encoding.
    KoreanEncodingFailed,
    /// The QR payload is longer than `QR_CAPACITY` bytes.
    QrTooLong,
    /// The tag names no command.
    UnsupportedCommand(String),
}

/// A print error, with texts as character sequences.
pub enum PrintFault {
    MissingValue(PrintCommandKind),
    InvalidAlignment(Seq<char>),
    KoreanEncodingFailed,
    QrTooLong,
    UnsupportedCommand(Seq<char>),
}

impl View for PrintError {
    type V = PrintFault;

    open spec fn view(&self) -> PrintFault {
        match self {
            PrintError::MissingValue(k) => PrintFault::MissingValue(*k),
            PrintError::InvalidAlignment(v) => PrintFault::InvalidAlignment(v@),
            PrintError::KoreanEncodingFailed => PrintFault::KoreanEncodingFailed,
            PrintError::QrTooLong => PrintFault::QrTooLong,
            PrintError::UnsupportedCommand(t) => PrintFault::UnsupportedCommand(t@),
        }
    }
}

/// A command, with texts as character sequences.
pub struct CommandView {
    pub tag: Seq<char>,
    pub value: Option<Seq<char>>,
}

impl View for PrintCommand {
    type V = CommandView;

    open spec fn view(&self) -> CommandView {
        CommandView {
            tag: self.command_type@,
            value: match self.value {
                Some(v) => Some(v@),
                None => None,
            },
        }
    }
}

/// The command kind that a tag names.
pub open spec fn kind_of_tag(t: Seq<char>) -> Option<PrintCommandKind> {
    if t == "bold"@ {
        Some(PrintCommandKind::Bold)
    } else if t == "unbold"@ {
        Some(PrintCommandKind::Unbold)
    } else if t == "alignment"@ {
        Some(PrintCommandKind::Alignment)
    } else if t == "text"@ {
        Some(PrintCommandKind::Text)
    } else if t == "normal_text"@ {
        Some(PrintCommandKind::NormalText)
    } else if t == "small_text"@ {
        Some(PrintCommandKind::SmallText)
    } else if t == "medium_text"@ {
        Some(PrintCommandKind::MediumText)
    } else if t == "large_text"@ {
        Some(PrintCommandKind::LargeText)
    } else if t == "korean_text"@ {
        Some(PrintCommandKind::KoreanText)
    } else if t == "blank_line"@ {
        Some(PrintCommandKind::BlankLine)
    } else if t == "full_cut"@ {
        Some(PrintCommandKind::FullCut)
    } else if t == "clear_all"@ {
        Some(PrintCommandKind::ClearAll)
    } else if t == "qr_code"@ {
        Some(PrintCommandKind::QrCode)
    } else {
        None
    }
}

/// The alignment byte that an alignment word selects.
pub open spec fn alignment_code(v: Seq<char>) -> Option<u8> {
    if v == "left"@ {
        Some(0u8)
    } else if v == "center"@ {
        Some(1u8)
    } else if v == "right"@ {
        Some(2u8)
    } else {
        None
    }
}

/// Control bytes of the commands that take no payload.
pub open spec fn fixed_bytes(k: PrintCommandKind) -> Seq<u8> {
    match k {
        PrintCommandKind::Bold => seq![0x1Bu8, 0x45u8, 0x01u8],
        PrintCommandKind::Unbold => seq![0x1Bu8, 0x45u8, 0x00u8],
        PrintCommandKind::NormalText => seq![0x1Du8, 0x21u8, 0x00u8],
        PrintCommandKind::SmallText => seq![0x1Du8, 0x21u8, 0x01u8],
        PrintCommandKind::MediumText => seq![0x1Du8, 0x21u8, 0x11u8],
        PrintCommandKind::LargeText => seq![0x1Du8, 0x21u8, 0x11u8],
        PrintCommandKind::BlankLine => seq![0x0Au8],
        PrintCommandKind::FullCut => seq![0x1Du8, 0x56u8, 0x00u8],
        _ => seq![0x1Bu8, 0x40u8],
    }
}

/// Print width in dots.
pub open spec fn width_dots() -> u64 {
    (PAPER_WIDTH_MM * PRINTER_DPI * 10 / 254) as u64
}

/// The command that sets the print width, low byte first.
pub open spec fn width_bytes() -> Seq<u8> {
    seq![0x1Du8, 0x57u8, (width_dots() % 256) as u8, (width_dots() / 256) as u8]
}

/// Selects the Korean code page.
pub open spec fn korean_select_bytes() -> Seq<u8> {
    seq![0x1Bu8, 0x74u8, 0x0Bu8]
}

/// Returns to the default code page.
pub open spec fn korean_reset_bytes() -> Seq<u8> {
    seq![0x1Bu8, 0x74u8, 0x00u8]
}

/// The single write that prints a QR code of `data` (at most `QR_CAPACITY` bytes).
pub open spec fn qr_block(data: Seq<u8>) -> Seq<u8> {
    seq![0x1Bu8, 0x61u8, 0x01u8, 0x1Du8, 0x4Cu8, 0x00u8, 0x00u8] + if data.len() > 0 {
        seq![0x1Au8, 0x42u8, 0x02u8, data.len() as u8, 0x05u8] + data + seq![0x00u8, 0x0Au8]
    } else {
        Seq::empty()
    }
}

/// Writes of a Korean text once encoded, or the encoding failure.
pub open spec fn korean_result(encoded: Seq<u8>, had_errors: bool) -> Result<Seq<Seq<u8>>, PrintFault> {
    if had_errors {
        Err(PrintFault::KoreanEncodingFailed)
    } else {
        Ok(seq![korean_select_bytes(), encoded, korean_reset_bytes()])
    }
}

/// The writes of one command, in order, or why it cannot be printed.
pub open spec fn command_result(c: CommandView) -> Result<Seq<Seq<u8>>, PrintFault> {
    match kind_of_tag(c.tag) {
        None => Err(PrintFault::UnsupportedCommand(c.tag)),
        Some(k) => match k {
            PrintCommandKind::Alignment => match c.value {
                None => Err(PrintFault::MissingValue(k)),
                Some(v) => match alignment_code(v) {
                    None => Err(PrintFault::InvalidAlignment(v)),
                    Some(a) => Ok(seq![seq![0x1Bu8, 0x61u8, a]]),
                },
            },
            PrintCommandKind::Text => match c.value {
                None => Err(PrintFault::MissingValue(k)),
                Some(v) => Ok(seq![encode_utf8(v)]),
            },
            PrintCommandKind::KoreanText => match c.value {
                None => Err(PrintFault::MissingValue(k)),
                Some(v) => korean_result(euc_kr_of(v).0, euc_kr_of(v).1),
            },
            PrintCommandKind::QrCode => match c.value {
                None => Err(PrintFault::MissingValue(k)),
                Some(v) => if encode_utf8(v).len() > QR_CAPACITY {
                    Err(PrintFault::QrTooLong)
                } else {
                    Ok(seq![qr_block(encode_utf8(v))])
                },
            },
            _ => Ok(seq![fixed_bytes(k)]),
        },
    }
}

/// The writes of a whole job: the width setting, then each command's writes
/// until the first command that fails, and that failure.
pub open spec fn job_result(cs: Seq<CommandView>) -> (Seq<Seq<u8>>, Option<PrintFault>)
    decreases cs.len(),
{
    if cs.len() == 0 {
        (seq![width_bytes()], None)
    } else {
        let (w, f) = job_result(cs.drop_last());
        if f is Some {
            (w, f)
        } else {
            match command_result(cs.last()) {
                Ok(cw) => (w + cw, None),
                Err(e) => (w, Some(e)),
            }
        }
    }
}

/// The views of a list of byte buffers.
pub open spec fn views_of(ws: Seq<Vec<u8>>) -> Seq<Seq<u8>> {
    ws.map_values(|w: Vec<u8>| w@)
}

/// The command kind that a tag names, if any.
pub fn command_kind(tag: &str) -> (r: Option<PrintCommandKind>)
    ensures
        r == kind_of_tag(tag@),
{
    if str_equals(tag, "bold") {
        Some(PrintCommandKind::Bold)
    } else if str_equals(tag, "unbold") {
        Some(PrintCommandKind::Unbold)
    } else if str_equals(tag, "alignment") {
        Some(PrintCommandKind::Alignment)
    } else if str_equals(tag, "text") {
        Some(PrintCommandKind::Text)
    } else if str_equals(tag, "normal_text") {
        Some(PrintCommandKind::NormalText)
    } else if str_equals(tag, "small_text") {
        Some(PrintCommandKind::SmallText)
    } else if str_equals(tag, "medium_text") {
        Some(PrintCommandKind::MediumText)
    } else if str_equals(tag, "large_text") {
        Some(PrintCommandKind::LargeText)
    } else if str_equals(tag, "korean_text") {
        Some(PrintCommandKind::KoreanText)
    } else if str_equals(tag, "blank_line") {
        Some(PrintCommandKind::BlankLine)
    } else if str_equals(tag, "full_cut") {
        Some(PrintCommandKind::FullCut)
    } else if str_equals(tag, "clear_all") {
        Some(PrintCommandKind::ClearAll)
    } else if str_equals(tag, "qr_code") {
        Some(PrintCommandKind::QrCode)
    } else {
        None
    }
}

/// Whether an outcome of encoding matches its description.
pub open spec fn writes_match(
    r: Result<Vec<Vec<u8>>, PrintError>,
    d: Result<Seq<Seq<u8>>, PrintFault>,
) -> bool {
    match (r, d) {
        (Ok(w), Ok(s)) => views_of(w@) == s,
        (Err(e), Err(f)) => e@ == f,
        _ => false,
    }
}

/// The views of a list of commands.
pub open spec fn command_views(cs: Seq<PrintCommand>) -> Seq<CommandView> {
    cs.map_values(|c: PrintCommand| c@)
}

/// Three bytes as a buffer.
fn three_bytes(a: u8, b: u8, c: u8) -> (r: Vec<u8>)
    ensures
        r@ == seq![a, b, c],
{
    let mut v: Vec<u8> = Vec::new();
    v.push(a);
    v.push(b);
    v.push(c);
    assert(v@ =~= seq![a, b, c]);
    v
}

/// Control bytes of a command that takes no payload.
fn fixed_command(k: PrintCommandKind) -> (r: Vec<u8>)
    ensures
        r@ == fixed_bytes(k),
{
    match k {
        PrintCommandKind::Bold => three_bytes(0x1B, 0x45, 0x01),
        PrintCommandKind::Unbold => three_bytes(0x1B, 0x45, 0x00),
        PrintCommandKind::NormalText => three_bytes(0x1D, 0x21, 0x00),
        PrintCommandKind::SmallText => three_bytes(0x1D, 0x21, 0x01),
        PrintCommandKind::MediumText => three_bytes(0x1D, 0x21, 0x11),
        PrintCommandKind::LargeText => three_bytes(0x1D, 0x21, 0x11),
        PrintCommandKind::BlankLine => {
            let mut v: Vec<u8> = Vec::new();
            v.push(0x0A);
            assert(v@ =~= seq![0x0Au8]);
            v
        },
        PrintCommandKind::FullCut => three_bytes(0x1D, 0x56, 0x00),
        _ => {
            let mut v: Vec<u8> = Vec::new();
            v.push(0x1B);
            v.push(0x40);
            assert(v@ =~= seq![0x1Bu8, 0x40u8]);
            v
        },
    }
}

/// The command that sets the print width.
pub fn width_command() -> (r: Vec<u8>)
    ensures
        r@ == width_bytes(),
{
    let dots: u64 = PAPER_WIDTH_MM * PRINTER_DPI * 10 / 254;
    let mut v: Vec<u8> = Vec::new();
    v.push(0x1D);
    v.push(0x57);
    v.push((dots % 256) as u8);
    v.push((dots / 256) as u8);
    assert(v@ =~= width_bytes());
    v
}

/// Appends `src` to `dst`.
fn append_bytes(dst: &mut Vec<u8>, src: &[u8])
    ensures
        final(dst)@ == old(dst)@ + src@,
{
    let mut i: usize = 0;
    while i < src.len()
        invariant
            0 <= i <= src@.len(),
            dst@ == old(dst)@ + src@.subrange(0, i as int),
        decreases src@.len() - i,
    {
        dst.push(src[i]);
        i = i + 1;
        assert(dst@ =~= old(dst)@ + src@.subrange(0, i as int));
    }
    assert(src@.subrange(0, src@.len() as int) =~= src@);
}

/// The write that prints a QR code of `data`.
pub fn qr_command(data: &[u8]) -> (r: Vec<u8>)
    requires
        data@.len() <= QR_CAPACITY,
    ensures
        r@ == qr_block(data@),
{
    let mut v: Vec<u8> = Vec::new();
    v.push(0x1B);
    v.push(0x61);
    v.push(0x01);
    v.push(0x1D);
    v.push(0x4C);
    v.push(0x00);
    v.push(0x00);
    let ghost head = v@;
    assert(head =~= seq![0x1Bu8, 0x61u8, 0x01u8, 0x1Du8, 0x4Cu8, 0x00u8, 0x00u8]);
    if data.len() > 0 {
        v.push(0x1A);
        v.push(0x42);
        v.push(0x02);
        v.push(data.len() as u8);
        v.push(0x05);
        let ghost mid = v@;
        append_bytes(&mut v, data);
        v.push(0x00);
        v.push(0x0A);
        assert(mid =~= head + seq![0x1Au8, 0x42u8, 0x02u8, data@.len() as u8, 0x05u8]);
        assert(v@ =~= head + (seq![0x1Au8, 0x42u8, 0x02u8, data@.len() as u8, 0x05u8] + data@
            + seq![0x00u8, 0x0Au8]));
    } else {
        assert(v@ =~= head + Seq::<u8>::empty());
    }
    v
}

/// The writes of a Korean text already encoded to EUC-KR: the code page is
/// selected, the text sent, and the default page restored; an encoding that
/// had errors is refused.
pub fn korean_writes(encoded: Vec<u8>, had_errors: bool) -> (r: Result<Vec<Vec<u8>>, PrintError>)
    ensures
        writes_match(r, korean_result(encoded@, had_errors)),
{
    if had_errors {
        return Err(PrintError::KoreanEncodingFailed);
    }
    let mut ws: Vec<Vec<u8>> = Vec::new();
    ws.push(three_bytes(0x1B, 0x74, 0x0B));
    ws.push(encoded);
    ws.push(three_bytes(0x1B, 0x74, 0x00));
    assert(views_of(ws@) =~= seq![korean_select_bytes(), encoded@, korean_reset_bytes()]);
    Ok(ws)
}

/// A single write as a list of writes.
fn one_write(w: Vec<u8>) -> (r: Vec<Vec<u8>>)
    ensures
        views_of(r@) == seq![w@],
{
    let mut ws: Vec<Vec<u8>> = Vec::new();
    ws.push(w);
    assert(views_of(ws@) =~= seq![w@]);
    ws
}

/// The writes of one command, in order, or why it cannot be printed.
pub fn command_writes(c: &PrintCommand) -> (r: Result<Vec<Vec<u8>>, PrintError>)
    ensures
        writes_match(r, command_result(c@)),
{
    let kind = match command_kind(c.command_type.as_str()) {
        Some(k) => k,
        None => {
            return Err(PrintError::UnsupportedCommand(c.command_type.clone()));
        },
    };
    match kind {
        PrintCommandKind::Alignment => match &c.value {
            None => Err(PrintError::MissingValue(kind)),
            Some(v) => {
                let code: u8 = if str_equals(v.as_str(), "left") {
                    0
                } else if str_equals(v.as_str(), "center") {
                    1
                } else if str_equals(v.as_str(), "right") {
                    2
                } else {
                    return Err(PrintError::InvalidAlignment(v.clone()));
                };
                Ok(one_write(three_bytes(0x1B, 0x61, code)))
            },
        },
        PrintCommandKind::Text => match &c.value {
            None => Err(PrintError::MissingValue(kind)),
            Some(v) => Ok(one_write(vstd::slice::slice_to_vec(v.as_str().as_bytes()))),
        },
        PrintCommandKind::KoreanText => match &c.value {
            None => Err(PrintError::MissingValue(kind)),
            Some(v) => {
                let (encoded, had_errors) = encode_euc_kr(v.as_str());
                korean_writes(encoded, had_errors)
            },
        },
        PrintCommandKind::QrCode => match &c.value {
            None => Err(PrintError::MissingValue(kind)),
            Some(v) => {
                let data = v.as_str().as_bytes();
                if data.len() > QR_CAPACITY {
                    Err(PrintError::QrTooLong)
                } else {
                    Ok(one_write(qr_command(data)))
                }
            },
        },
        _ => Ok(one_write(fixed_command(kind))),
    }
}

/// Once a job has failed, later commands change nothing.
proof fn lemma_job_failure_sticks(cs: Seq<CommandView>, k: int, m: int)
    requires
        0 <= k <= m <= cs.len(),
        job_result(cs.take(k)).1 is Some,
    ensures
        job_result(cs.take(m)) == job_result(cs.take(k)),
    decreases m - k,
{
    if m > k {
        lemma_job_failure_sticks(cs, k, m - 1);
        assert(cs.take(m).drop_last() =~= cs.take(m - 1));
    }
}

/// The ordered writes of a print job, and the failure that ended it early, if any.
pub struct PrintJob {
    pub writes: Vec<Vec<u8>>,
    pub error: Option<PrintError>,
}

/// Encodes a whole job: the width setting first, then each command's writes in
/// order; the first command that cannot be printed ends the job, and the writes
/// before it stand.
pub fn plan_print(commands: &Vec<PrintCommand>) -> (r: PrintJob)
    ensures
        views_of(r.writes@) == job_result(command_views(commands@)).0,
        match (r.error, job_result(command_views(commands@)).1) {
            (None, None) => true,
            (Some(e), Some(f)) => e@ == f,
            _ => false,
        },
{
    let ghost cs = command_views(commands@);
    let mut writes: Vec<Vec<u8>> = Vec::new();
    writes.push(width_command());
    assert(views_of(writes@) =~= seq![width_bytes()]);
    assert(cs.take(0) =~= Seq::<CommandView>::empty());
    let mut i: usize = 0;
    while i < commands.len()
        invariant
            0 <= i <= commands@.len(),
            cs == command_views(commands@),
            cs.len() == commands@.len(),
            views_of(writes@) == job_result(cs.take(i as int)).0,
            job_result(cs.take(i as int)).1 is None,
        decreases commands@.len() - i,
    {
        let ghost before = writes@;
        assert(cs.take(i + 1).drop_last() =~= cs.take(i as int));
        assert(cs.take(i + 1).last() == commands@[i as int]@);
        match command_writes(&commands[i]) {
            Ok(mut ws) => {
                let ghost added = ws@;
                writes.append(&mut ws);
                assert(views_of(writes@) =~= views_of(before) + views_of(added));
            },
            Err(e) => {
                proof {
                    lemma_job_failure_sticks(cs, i + 1, cs.len() as int);
                    assert(cs.take(cs.len() as int) =~= cs);
                }
                return PrintJob { writes, error: Some(e) };
            },
        }
        i = i + 1;
    }
    assert(cs.take(i as int) =~= cs);
    PrintJob { writes, error: None }
}

/// A job of one QR command: a payload over `QR_CAPACITY` bytes is refused with
/// the capacity error and nothing but the width setting is written; any other
/// payload is written as exactly one QR block.
pub proof fn lemma_qr_capacity(v: Seq<char>)
    ensures
        ({
            let job = job_result(seq![CommandView { tag: "qr_code"@, value: Some(v) }]);
            if encode_utf8(v).len() > QR_CAPACITY {
                job == (seq![width_bytes()], Some(PrintFault::QrTooLong))
            } else {
                job == (seq![width_bytes(), qr_block(encode_utf8(v))], None::<PrintFault>)
            }
        }),
{
    reveal_strlit("qr_code");
    reveal_strlit("bold");
    reveal_strlit("unbold");
    reveal_strlit("alignment");
    reveal_strlit("text");
    reveal_strlit("normal_text");
    reveal_strlit("small_text");
    reveal_strlit("medium_text");
    reveal_strlit("large_text");
    reveal_strlit("korean_text");
    reveal_strlit("blank_line");
    reveal_strlit("full_cut");
    reveal_strlit("clear_all");
    assert("qr_code"@.len() == 7);
    assert("bold"@.len() == 4);
    assert("unbold"@.len() == 6);
    assert("alignment"@.len() == 9);
    assert("text"@.len() == 4);
    assert("normal_text"@.len() == 11);
    assert("small_text"@.len() == 10);
    assert("medium_text"@.len() == 11);
    assert("large_text"@.len() == 10);
    assert("korean_text"@.len() == 11);
    assert("blank_line"@.len() == 10);
    assert("full_cut"@.len() == 8);
    assert("clear_all"@.len() == 9);
    let c = CommandView { tag: "qr_code"@, value: Some(v) };
    assert(kind_of_tag(c.tag) == Some(PrintCommandKind::QrCode));
    let cs = seq![c];
    assert(cs.drop_last() =~= Seq::<CommandView>::empty());
    assert(cs.last() == c);
    assert(job_result(cs.drop_last()) == (seq![width_bytes()], None::<PrintFault>));
    assert(seq![width_bytes()] + seq![qr_block(encode_utf8(v))] =~= seq![
        width_bytes(),
        qr_block(encode_utf8(v)),
    ]);
}

} // verus!
