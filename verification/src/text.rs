//! Status-bar text: the two UI languages, decimal numbers and the sentences
//! that report what happened to the user's work.

use vstd::prelude::*;

verus! {

/// The language the user interface speaks.
#[derive(Debug, Clone, Copy, PartialEq, Eq, Structural)]
pub enum Lang {
    En,
    Th,
}

/// The character of one decimal digit.
pub open spec fn digit_char(d: nat) -> char {
    if d == 0 { '0' }
    else if d == 1 { '1' }
    else if d == 2 { '2' }
    else if d == 3 { '3' }
    else if d == 4 { '4' }
    else if d == 5 { '5' }
    else if d == 6 { '6' }
    else if d == 7 { '7' }
    else if d == 8 { '8' }
    else { '9' }
}

/// The decimal spelling of a natural number, most significant digit first,
/// without leading zeros.
pub open spec fn decimal_spec(n: nat) -> Seq<char>
    decreases n,
{
    if n < 10 {
        seq![digit_char(n)]
    } else {
        decimal_spec(n / 10).push(digit_char(n % 10))
    }
}

fn digit_str(d: u64) -> (s: &'static str)
    requires
        d < 10,
    ensures
        s@ == seq![digit_char(d as nat)],
{
    proof {
        reveal_strlit("0");
        reveal_strlit("1");
        reveal_strlit("2");
        reveal_strlit("3");
        reveal_strlit("4");
        reveal_strlit("5");
        reveal_strlit("6");
        reveal_strlit("7");
        reveal_strlit("8");
        reveal_strlit("9");
    }
    if d == 0 { "0" }
    else if d == 1 { "1" }
    else if d == 2 { "2" }
    else if d == 3 { "3" }
    else if d == 4 { "4" }
    else if d == 5 { "5" }
    else if d == 6 { "6" }
    else if d == 7 { "7" }
    else if d == 8 { "8" }
    else { "9" }
}

/// Appends the decimal spelling of `n` to `out`.
pub fn push_decimal(out: &mut String, n: u64)
    ensures
        final(out)@ == old(out)@ + decimal_spec(n as nat),
    decreases n,
{
    if n < 10 {
        out.append(digit_str(n));
    } else {
        push_decimal(out, n / 10);
        out.append(digit_str(n % 10));
        proof {
            assert(decimal_spec(n as nat) == decimal_spec((n / 10) as nat).push(digit_char((n % 10) as nat)));
        }
    }
}

/// The decimal spelling of `n`, as `to_string` writes it.
pub fn decimal(n: u64) -> (s: String)
    ensures
        s@ == decimal_spec(n as nat),
{
    let mut s = String::new();
    push_decimal(&mut s, n);
    s
}


/// What the status bar says when the board filled up before a batch of
/// dropped files was done: how many images the board holds, how many files
/// were turned away and how many were dropped, then what to do next.
pub open spec fn board_full_text(lang: Lang, capacity: nat, rejected: nat, requested: nat) -> Seq<char> {
    match lang {
        Lang::En => "The board is full at "@ + decimal_spec(capacity) + " images: "@
            + decimal_spec(rejected) + " of the "@ + decimal_spec(requested)
            + " files were not added. Start a new board for the rest."@,
        Lang::Th => "board เต็มแล้วที่ "@ + decimal_spec(capacity) + " ภาพ: "@
            + decimal_spec(rejected) + " จาก "@ + decimal_spec(requested)
            + " ไฟล์ไม่ได้ถูกเพิ่ม เริ่ม board ใหม่สำหรับที่เหลือ"@,
    }
}

/// Writes [`board_full_text`].
pub fn board_full_text_exec(lang: Lang, capacity: u64, rejected: u64, requested: u64) -> (s: String)
    ensures
        s@ == board_full_text(lang, capacity as nat, rejected as nat, requested as nat),
{
    let mut s = String::new();
    match lang {
        Lang::En => {
            s.append("The board is full at ");
            push_decimal(&mut s, capacity);
            s.append(" images: ");
            push_decimal(&mut s, rejected);
            s.append(" of the ");
            push_decimal(&mut s, requested);
            s.append(" files were not added. Start a new board for the rest.");
        },
        Lang::Th => {
            s.append("board เต็มแล้วที่ ");
            push_decimal(&mut s, capacity);
            s.append(" ภาพ: ");
            push_decimal(&mut s, rejected);
            s.append(" จาก ");
            push_decimal(&mut s, requested);
            s.append(" ไฟล์ไม่ได้ถูกเพิ่ม เริ่ม board ใหม่สำหรับที่เหลือ");
        },
    }
    s
}

/// The label of the loading bar: `done` of `total` jobs of the current batch.
pub open spec fn loading_text(lang: Lang, done: nat, total: nat) -> Seq<char> {
    match lang {
        Lang::En => "Loading "@ + decimal_spec(done) + " / "@ + decimal_spec(total),
        Lang::Th => "กำลังโหลด "@ + decimal_spec(done) + " / "@ + decimal_spec(total),
    }
}

/// Writes [`loading_text`].
pub fn loading_text_exec(lang: Lang, done: u64, total: u64) -> (s: String)
    ensures
        s@ == loading_text(lang, done as nat, total as nat),
{
    let mut s = String::new();
    match lang {
        Lang::En => s.append("Loading "),
        Lang::Th => s.append("กำลังโหลด "),
    }
    push_decimal(&mut s, done);
    s.append(" / ");
    push_decimal(&mut s, total);
    s
}

/// Relink finished with `lost` images still missing.
pub open spec fn relink_missing_text(lang: Lang, lost: nat) -> Seq<char> {
    match lang {
        Lang::En => decimal_spec(lost) + " images could not be found. Select one and choose Find file."@,
        Lang::Th => "หาไฟล์ไม่เจอ "@ + decimal_spec(lost) + " ภาพ เลือกภาพแล้วกด หาไฟล์เอง"@,
    }
}

/// Relink took `n` images out of the document itself.
pub open spec fn relink_unpacked_text(lang: Lang, n: nat) -> Seq<char> {
    match lang {
        Lang::En => decimal_spec(n) + " images were restored from inside the document."@,
        Lang::Th => "ใช้ภาพที่ฝังอยู่ในเอกสาร "@ + decimal_spec(n) + " ภาพ"@,
    }
}

/// Relink found `found` of the `total` images it looked for in new places.
pub open spec fn relink_found_text(lang: Lang, found: nat, total: nat) -> Seq<char> {
    match lang {
        Lang::En => "Found "@ + decimal_spec(found) + " of "@ + decimal_spec(total) + " moved images."@,
        Lang::Th => "เจอภาพที่ย้ายที่ "@ + decimal_spec(found) + " จาก "@ + decimal_spec(total) + " ภาพ"@,
    }
}

/// Writes [`relink_missing_text`].
pub fn relink_missing_text_exec(lang: Lang, lost: u64) -> (s: String)
    ensures
        s@ == relink_missing_text(lang, lost as nat),
{
    let mut s = String::new();
    match lang {
        Lang::En => {
            push_decimal(&mut s, lost);
            s.append(" images could not be found. Select one and choose Find file.");
        },
        Lang::Th => {
            s.append("หาไฟล์ไม่เจอ ");
            push_decimal(&mut s, lost);
            s.append(" ภาพ เลือกภาพแล้วกด หาไฟล์เอง");
        },
    }
    s
}

/// Writes [`relink_unpacked_text`].
pub fn relink_unpacked_text_exec(lang: Lang, n: u64) -> (s: String)
    ensures
        s@ == relink_unpacked_text(lang, n as nat),
{
    let mut s = String::new();
    match lang {
        Lang::En => {
            push_decimal(&mut s, n);
            s.append(" images were restored from inside the document.");
        },
        Lang::Th => {
            s.append("ใช้ภาพที่ฝังอยู่ในเอกสาร ");
            push_decimal(&mut s, n);
            s.append(" ภาพ");
        },
    }
    s
}

/// Writes [`relink_found_text`].
pub fn relink_found_text_exec(lang: Lang, found: u64, total: u64) -> (s: String)
    ensures
        s@ == relink_found_text(lang, found as nat, total as nat),
{
    let mut s = String::new();
    match lang {
        Lang::En => {
            s.append("Found ");
            push_decimal(&mut s, found);
            s.append(" of ");
            push_decimal(&mut s, total);
            s.append(" moved images.");
        },
        Lang::Th => {
            s.append("เจอภาพที่ย้ายที่ ");
            push_decimal(&mut s, found);
            s.append(" จาก ");
            push_decimal(&mut s, total);
            s.append(" ภาพ");
        },
    }
    s
}

} // verus!
