//! Issuing a visual challenge: a random id, a rendered puzzle, and an entry
//! in the challenge store that expires after a fixed time.

use base64::engine::general_purpose;
use base64::Engine;
use rand::distributions::Alphanumeric;
use rand::Rng;
use vstd::prelude::*;

use crate::clock::now_unix;
use crate::store::{CaptchaEntry, CaptchaStore};

verus! {

/// Seconds a challenge stays valid after it is issued.
pub const CAPTCHA_TTL_SECONDS: i64 = 120;

/// Characters in a challenge id.
pub const CAPTCHA_ID_LEN: usize = 24;

/// Characters drawn into a puzzle.
pub const CAPTCHA_CHARS: u32 = 5;

/// Width and height, in pixels, of a rendered puzzle.
pub const CAPTCHA_WIDTH: u32 = 180;
pub const CAPTCHA_HEIGHT: u32 = 60;

pub open spec fn is_ascii_alphanumeric(c: char) -> bool {
    ('a' <= c && c <= 'z') || ('A' <= c && c <= 'Z') || ('0' <= c && c <= '9')
}

/// The Base64 digit for a six-bit value, in the standard alphabet.
pub open spec fn b64_digit(v: int) -> char {
    "ABCDEFGHIJKLMNOPQRSTUVWXYZabcdefghijklmnopqrstuvwxyz0123456789+/"@[v]
}

/// The standard Base64 text of `b`: each group of three bytes becomes four
/// digits, and a last group of one or two bytes is padded with `=`.
pub open spec fn base64_standard(b: Seq<u8>) -> Seq<char>
    decreases b.len(),
{
    let x = if b.len() > 0 { b[0] as int } else { 0 };
    let y = if b.len() > 1 { b[1] as int } else { 0 };
    let z = if b.len() > 2 { b[2] as int } else { 0 };
    if b.len() == 0 {
        Seq::empty()
    } else if b.len() == 1 {
        seq![b64_digit(x / 4), b64_digit((x % 4) * 16), '=', '=']
    } else if b.len() == 2 {
        seq![b64_digit(x / 4), b64_digit((x % 4) * 16 + y / 16), b64_digit((y % 16) * 4), '=']
    } else {
        seq![
            b64_digit(x / 4),
            b64_digit((x % 4) * 16 + y / 16),
            b64_digit((y % 16) * 4 + z / 64),
            b64_digit(z % 64),
        ] + base64_standard(b.subrange(3, b.len() as int))
    }
}

/// Relies on rand's `thread_rng` sampled through `Alphanumeric`: `n` characters,
/// each drawn from `A-Z`, `a-z` and `0-9`.
#[verifier::external_body]
fn random_alphanumeric(n: usize) -> (r: String)
    ensures
        r@.len() == n,
        forall|i: int| 0 <= i < n ==> is_ascii_alphanumeric(#[trigger] r@[i]),
{
    rand::thread_rng().sample_iter(&Alphanumeric).take(n).map(char::from).collect()
}

/// Relies on the captcha crate (`Captcha::new`, `add_chars`, `chars_as_string`,
/// `view`, `as_png`): a random puzzle of up to `chars` characters (one is added
/// only when the font can draw it; the default font holds ASCII letters and
/// digits only) cropped to `width` x `height`, as its answer and PNG bytes;
/// `None` when PNG encoding fails. The crate draws on a fixed 400x300 canvas:
/// more characters, or a wider or taller view, can reach past its edge and
/// panic, so the bounds below are those of the puzzle this library draws.
#[verifier::external_body]
fn render_captcha(chars: u32, width: u32, height: u32) -> (r: Option<(String, Vec<u8>)>)
    requires
        chars <= 5,
        width <= 180,
        height <= 60,
    ensures
        r matches Some(p) ==> p.0@.len() <= chars && forall|i: int|
            0 <= i < p.0@.len() ==> is_ascii_alphanumeric(#[trigger] p.0@[i]),
{
    let mut cap = captcha::Captcha::new();
    cap.add_chars(chars);
    let answer = cap.chars_as_string();
    cap.view(width, height).as_png().map(|png| (answer, png))
}

/// Relies on base64's `STANDARD` engine: the standard alphabet with `=` padding.
#[verifier::external_body]
fn base64_encode(b: &Vec<u8>) -> (r: String)
    ensures
        r@ == base64_standard(b@),
{
    general_purpose::STANDARD.encode(b)
}

/// What a client receives for a new challenge.
#[derive(Debug)]
pub struct CaptchaResp {
    pub captcha_id: String,
    /// The puzzle as a `data:` URL holding Base64 PNG.
    pub image: String,
    /// Seconds until the challenge expires.
    pub expires_in: i64,
}

/// The `data:` URL of a PNG image.
pub open spec fn png_data_url_of(png: Seq<u8>) -> Seq<char> {
    "data:image/png;base64,"@ + base64_standard(png)
}

/// Wraps PNG bytes in a `data:` URL that a browser displays directly.
pub fn png_data_url(png: &Vec<u8>) -> (r: String)
    ensures
        r@ == png_data_url_of(png@),
{
    let mut url = String::from_str("data:image/png;base64,");
    let b64 = base64_encode(png);
    url.append(b64.as_str());
    url
}

/// Records challenge `id` with `answer` at time `now`, to expire
/// `CAPTCHA_TTL_SECONDS` later, and builds what the client receives.
pub fn issue_captcha_at(
    store: &mut CaptchaStore,
    id: String,
    answer: String,
    png: &Vec<u8>,
    now: i64,
) -> (r: CaptchaResp)
    requires
        now <= i64::MAX - CAPTCHA_TTL_SECONDS,
    ensures
        final(store)@ == old(store)@.insert(id@, (answer@, (now + CAPTCHA_TTL_SECONDS) as i64)),
        r.captcha_id@ == id@,
        r.image@ == png_data_url_of(png@),
        r.expires_in == CAPTCHA_TTL_SECONDS,
{
    let image = png_data_url(png);
    let entry = CaptchaEntry { answer, expires_at: now + CAPTCHA_TTL_SECONDS };
    let captcha_id = id.clone();
    store.insert(id, entry);
    CaptchaResp { captcha_id, image, expires_in: CAPTCHA_TTL_SECONDS }
}

/// An answer of at most `CAPTCHA_CHARS` ASCII letters and digits.
pub open spec fn short_alphanumeric(answer: Seq<char>) -> bool {
    answer.len() <= CAPTCHA_CHARS && forall|i: int|
        0 <= i < answer.len() ==> is_ascii_alphanumeric(#[trigger] answer[i])
}

/// A freshly drawn puzzle, not yet recorded anywhere.
#[derive(Debug)]
pub struct DrawnCaptcha {
    pub id: String,
    pub answer: String,
    pub png: Vec<u8>,
}

/// Draws a new puzzle with a random alphanumeric id of `CAPTCHA_ID_LEN`
/// characters. `None` when the puzzle cannot be rendered. Touches no store, so
/// the costly rendering needs no lock on one.
pub fn draw_captcha() -> (r: Option<DrawnCaptcha>)
    ensures
        r matches Some(d) ==> d.id@.len() == CAPTCHA_ID_LEN && forall|i: int|
            0 <= i < CAPTCHA_ID_LEN ==> is_ascii_alphanumeric(#[trigger] d.id@[i]),
        r matches Some(d) ==> short_alphanumeric(d.answer@),
{
    let id = random_alphanumeric(CAPTCHA_ID_LEN);
    match render_captcha(CAPTCHA_CHARS, CAPTCHA_WIDTH, CAPTCHA_HEIGHT) {
        Some((answer, png)) => Some(DrawnCaptcha { id, answer, png }),
        None => None,
    }
}

/// Records a drawn puzzle at the current time, to expire
/// `CAPTCHA_TTL_SECONDS` later; see `issue_captcha_at`. `None`, with the store
/// untouched, only when the clock is too close to the end of `i64`.
pub fn issue_captcha(store: &mut CaptchaStore, drawn: DrawnCaptcha) -> (r: Option<CaptchaResp>)
    ensures
        r is None ==> final(store)@ == old(store)@,
        r matches Some(c) ==> {
            &&& c.captcha_id@ == drawn.id@
            &&& c.image@ == png_data_url_of(drawn.png@)
            &&& c.expires_in == CAPTCHA_TTL_SECONDS
            &&& exists|now: i64|
                now <= i64::MAX - CAPTCHA_TTL_SECONDS && final(store)@ == #[trigger] old(store)@.insert(
                    drawn.id@,
                    (drawn.answer@, (now + CAPTCHA_TTL_SECONDS) as i64),
                )
        },
{
    let now = now_unix();
    if now > i64::MAX - CAPTCHA_TTL_SECONDS {
        return None;
    }
    Some(issue_captcha_at(store, drawn.id, drawn.answer, &drawn.png, now))
}

/// Draws and records a new challenge; see `draw_captcha` and `issue_captcha`.
pub fn get_captcha(store: &mut CaptchaStore) -> (r: Option<CaptchaResp>)
    ensures
        r is None ==> final(store)@ == old(store)@,
        r matches Some(c) ==> {
            &&& c.captcha_id@.len() == CAPTCHA_ID_LEN
            &&& forall|i: int|
                0 <= i < CAPTCHA_ID_LEN ==> is_ascii_alphanumeric(#[trigger] c.captcha_id@[i])
            &&& c.expires_in == CAPTCHA_TTL_SECONDS
            &&& exists|png: Seq<u8>| c.image@ == #[trigger] png_data_url_of(png)
            &&& exists|answer: Seq<char>, now: i64|
                short_alphanumeric(answer) && now <= i64::MAX - CAPTCHA_TTL_SECONDS && final(store)@
                    == #[trigger] old(store)@.insert(
                    c.captcha_id@,
                    (answer, (now + CAPTCHA_TTL_SECONDS) as i64),
                )
        },
{
    let drawn = match draw_captcha() {
        Some(d) => d,
        None => {
            return None;
        },
    };
    issue_captcha(store, drawn)
}

} // verus!
