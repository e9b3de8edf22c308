//! The trade decision, and its recovery from the free-form text of an
//! adviser: where the JSON stands in the text, what its tokens mean, and the
//! safe default where nothing usable is found.

use vstd::prelude::*;
use vstd::string::*;
use crate::ledger::{side_capitals, Side};
use crate::text::{
    chars_of, find_char, find_from, first_index, first_match, last_index, lemma_first_index,
    lemma_first_index_is, lemma_first_index_none, lemma_first_match, lemma_first_match_is,
    lemma_first_match_none, lemma_last_index, lemma_last_index_is, occurs_at, rfind_char,
    same_text, trim, trim_bounds, trim_start, trimmed,
};

verus! {

/// What to do in the market.
#[derive(Clone, Copy, Debug, PartialEq, Eq, Structural)]
pub enum Action {
    Buy,
    Sell,
    Pass,
}

/// A decision on one market. Where the action is not `Pass`, an order needs
/// the side, the shares and the price limit; `order` tests for them.
#[derive(Clone, Debug, PartialEq, Eq)]
pub struct TradeDecision {
    pub action: Action,
    pub side: Option<Side>,
    pub shares: Option<u32>,
    pub max_price_cents: Option<u32>,
    pub reasoning: String,
}

/// A decision as plain values.
pub struct DecisionView {
    pub action: Action,
    pub side: Option<Side>,
    pub shares: Option<u32>,
    pub max_price_cents: Option<u32>,
    pub reasoning: Seq<char>,
}

impl View for TradeDecision {
    type V = DecisionView;

    open spec fn view(&self) -> DecisionView {
        DecisionView {
            action: self.action,
            side: self.side,
            shares: self.shares,
            max_price_cents: self.max_price_cents,
            reasoning: self.reasoning@,
        }
    }
}

/// The fields of a decoded JSON object, before its tokens are read.
#[derive(Clone, Debug, PartialEq, Eq)]
pub struct RawDecision {
    pub action: String,
    pub side: Option<String>,
    pub shares: Option<u32>,
    pub max_price_cents: Option<u32>,
    pub reasoning: String,
}

/// Decoded fields as plain values.
pub struct RawView {
    pub action: Seq<char>,
    pub side: Option<Seq<char>>,
    pub shares: Option<u32>,
    pub max_price_cents: Option<u32>,
    pub reasoning: Seq<char>,
}

impl View for RawDecision {
    type V = RawView;

    open spec fn view(&self) -> RawView {
        RawView {
            action: self.action@,
            side: match self.side {
                Some(s) => Some(s@),
                None => None,
            },
            shares: self.shares,
            max_price_cents: self.max_price_cents,
            reasoning: self.reasoning@,
        }
    }
}

/// An order that can be placed: a decision to buy or sell with nothing missing.
#[derive(Clone, Copy, Debug, PartialEq, Eq, Structural)]
pub struct Order {
    pub action: Action,
    pub side: Side,
    pub shares: u32,
    pub max_price_cents: u32,
}

/// The marker that opens a fenced JSON block.
pub open spec fn fence_open() -> Seq<char> {
    "```json"@
}

/// The marker that closes a fenced block.
pub open spec fn fence_close() -> Seq<char> {
    "```"@
}

/// Whether `s` begins with `c`.
pub open spec fn begins_with(s: Seq<char>, c: char) -> bool {
    s.len() > 0 && s[0] == c
}

/// The text between the first `{` and the last `}` of `raw`, both included,
/// where the one stands before the other.
pub open spec fn brace_span(raw: Seq<char>) -> Option<Seq<char>> {
    match (first_index(raw, '{', 0), last_index(raw, '}', raw.len() as int)) {
        (Some(a), Some(b)) => if a < b {
            Some(raw.subrange(a, b + 1))
        } else {
            None
        },
        _ => None,
    }
}

/// The part of `raw` that is to be read as JSON. Three shapes are tried in
/// turn: a block fenced as JSON, from after its opening marker to the next
/// closing marker or the end of the text, trimmed; a text that, trimmed,
/// begins with `{`, whole; the span from the first `{` to the last `}`.
pub open spec fn json_text(raw: Seq<char>) -> Option<Seq<char>> {
    match first_match(raw, fence_open(), 0) {
        Some(i) => {
            let start = i + fence_open().len();
            let end = match first_match(raw, fence_close(), start) {
                Some(j) => j,
                None => raw.len() as int,
            };
            Some(trimmed(raw.subrange(start, end)))
        },
        None => if begins_with(trimmed(raw), '{') {
            Some(trimmed(raw))
        } else {
            brace_span(raw)
        },
    }
}

/// Finds in `raw` the text that is to be read as JSON; `None` where `raw`
/// has none of the three shapes.
pub fn json_span(raw: &str) -> (r: Option<&str>)
    ensures
        match r {
            Some(text) => json_text(raw@) == Some(text@),
            None => json_text(raw@) is None,
        },
{
    let chars = chars_of(raw);
    let opening = chars_of("```json");
    let closing = chars_of("```");
    let n: usize = chars.len();
    match find_from(&chars, &opening, 0) {
        Some(i) => {
            proof {
                lemma_first_match(raw@, fence_open(), 0);
                lemma_first_match(raw@, fence_close(), i + fence_open().len());
            }
            assert(i + opening@.len() <= n);
            let start: usize = i + opening.len();
            let end: usize = match find_from(&chars, &closing, start) {
                Some(j) => j,
                None => n,
            };
            assert(start <= end <= n);
            Some(trim(raw.substring_char(start, end)))
        },
        None => {
            let (a, b) = trim_bounds(&chars);
            if a < b && chars[a] == '{' {
                Some(raw.substring_char(a, b))
            } else {
                proof {
                    lemma_first_index(raw@, '{', 0);
                    lemma_last_index(raw@, '}', raw@.len() as int);
                }
                match (find_char(&chars, '{', 0), rfind_char(&chars, '}')) {
                    (Some(first), Some(last)) => if first < last {
                        assert(last < n);
                        Some(raw.substring_char(first, last + 1))
                    } else {
                        None
                    },
                    _ => None,
                }
            }
        },
    }
}

/// Whether `token` spells `word`, which is in capitals, in capitals or in
/// small letters or in any mix of them.
pub open spec fn spells(token: Seq<char>, word: Seq<char>) -> bool {
    &&& token.len() == word.len()
    &&& forall|i: int| 0 <= i < word.len() ==> same_letter(#[trigger] token[i], word[i])
}

/// Whether `c` is `capital` or, where `capital` is one of `A` to `Z`, its
/// small letter.
pub open spec fn same_letter(c: char, capital: char) -> bool {
    c == capital || ('A' <= capital <= 'Z' && c as u32 == capital as u32 + 32)
}

/// The action in capitals.
pub open spec fn action_text(action: Action) -> Seq<char> {
    match action {
        Action::Buy => "BUY"@,
        Action::Sell => "SELL"@,
        Action::Pass => "PASS"@,
    }
}

/// The action that a token names, in any mix of capitals and small letters.
pub open spec fn action_of(token: Seq<char>) -> Option<Action> {
    if spells(token, action_text(Action::Buy)) {
        Some(Action::Buy)
    } else if spells(token, action_text(Action::Sell)) {
        Some(Action::Sell)
    } else if spells(token, action_text(Action::Pass)) {
        Some(Action::Pass)
    } else {
        None
    }
}

/// The side that a token names: `YES` or `NO`, in capitals.
pub open spec fn side_of(token: Seq<char>) -> Option<Side> {
    if token == side_capitals(Side::Yes) {
        Some(Side::Yes)
    } else if token == side_capitals(Side::No) {
        Some(Side::No)
    } else {
        None
    }
}

/// The tokens that name an action and a side are read back as them.
pub proof fn lemma_tokens_read_back(action: Action, side: Side)
    ensures
        action_of(action_text(action)) == Some(action),
        side_of(side_capitals(side)) == Some(side),
{
    reveal_strlit("BUY");
    reveal_strlit("SELL");
    reveal_strlit("PASS");
    reveal_strlit("YES");
    reveal_strlit("NO");
    assert("BUY"@.len() != "SELL"@.len());
    assert("BUY"@.len() != "PASS"@.len());
    assert("YES"@.len() != "NO"@.len());
    assert("SELL"@[0] == 'S' && "PASS"@[0] == 'P');
    assert(!same_letter("PASS"@[0], "SELL"@[0]));
    assert(!same_letter("SELL"@[0], "PASS"@[0]));
}

impl Action {
    /// The action in capitals: `BUY`, `SELL` or `PASS`.
    pub fn name(self) -> (r: &'static str)
        ensures
            r@ == action_text(self),
    {
        match self {
            Action::Buy => "BUY",
            Action::Sell => "SELL",
            Action::Pass => "PASS",
        }
    }
}

fn spells_word(token: &Vec<char>, word: &str) -> (r: bool)
    ensures
        r == spells(token@, word@),
{
    let letters = chars_of(word);
    if token.len() != letters.len() {
        return false;
    }
    let mut i: usize = 0;
    while i < letters.len()
        invariant
            letters@ == word@,
            token@.len() == letters@.len(),
            i <= letters@.len(),
            forall|k: int| 0 <= k < i ==> same_letter(#[trigger] token@[k], letters@[k]),
        decreases letters@.len() - i,
    {
        let c: char = token[i];
        let capital: char = letters[i];
        let same: bool = c == capital || ('A' <= capital && capital <= 'Z' && c as u32
            == capital as u32 + 32);
        if !same {
            assert(!same_letter(token@[i as int], letters@[i as int]));
            return false;
        }
        i = i + 1;
    }
    true
}

/// Reads an action token.
pub fn parse_action(token: &str) -> (r: Option<Action>)
    ensures
        r == action_of(token@),
{
    let letters = chars_of(token);
    if spells_word(&letters, "BUY") {
        Some(Action::Buy)
    } else if spells_word(&letters, "SELL") {
        Some(Action::Sell)
    } else if spells_word(&letters, "PASS") {
        Some(Action::Pass)
    } else {
        None
    }
}

/// Reads a side token.
pub fn parse_side(token: &str) -> (r: Option<Side>)
    ensures
        r == side_of(token@),
{
    if same_text(token, "YES") {
        Some(Side::Yes)
    } else if same_text(token, "NO") {
        Some(Side::No)
    } else {
        None
    }
}

/// The decision that stands for a reply that could not be read: to pass.
pub open spec fn fallback_view() -> DecisionView {
    DecisionView {
        action: Action::Pass,
        side: None,
        shares: None,
        max_price_cents: None,
        reasoning: "Failed to parse AI response"@,
    }
}

/// The decision that decoded fields stand for, where their tokens are valid:
/// the action is one of the three, and the side, if there is one, one of the two.
pub open spec fn decision_of(raw: RawView) -> Option<DecisionView> {
    match action_of(raw.action) {
        None => None,
        Some(action) => match raw.side {
            None => Some(
                DecisionView {
                    action,
                    side: None,
                    shares: raw.shares,
                    max_price_cents: raw.max_price_cents,
                    reasoning: raw.reasoning,
                },
            ),
            Some(token) => match side_of(token) {
                None => None,
                Some(side) => Some(
                    DecisionView {
                        action,
                        side: Some(side),
                        shares: raw.shares,
                        max_price_cents: raw.max_price_cents,
                        reasoning: raw.reasoning,
                    },
                ),
            },
        },
    }
}

/// The decision for what a decoder made of the JSON text: the fields'
/// decision where it gave fields with valid tokens, the fallback otherwise.
pub open spec fn resolved(decoded: Option<RawView>) -> DecisionView {
    match decoded {
        Some(raw) => match decision_of(raw) {
            Some(decision) => decision,
            None => fallback_view(),
        },
        None => fallback_view(),
    }
}

/// The order that a decision asks for: none where it passes, or where the
/// side, the shares or the price limit is missing.
pub open spec fn order_of(decision: DecisionView) -> Option<Order> {
    match (decision.action, decision.side, decision.shares, decision.max_price_cents) {
        (Action::Pass, _, _, _) => None,
        (action, Some(side), Some(shares), Some(max_price_cents)) => Some(
            Order { action, side, shares, max_price_cents },
        ),
        _ => None,
    }
}

/// Decoded fields, if any, as plain values.
pub open spec fn decoded_view(decoded: Option<RawDecision>) -> Option<RawView> {
    match decoded {
        Some(raw) => Some(raw@),
        None => None,
    }
}

/// The order that closes a position on `entry_side`, where the decision,
/// asked whether to close it, says to sell and names the shares and the
/// price limit. Asked that, a decision never opens anything: to buy counts
/// as to pass.
pub open spec fn exit_order_of(decision: DecisionView, entry_side: Side) -> Option<Order> {
    match (decision.action, decision.shares, decision.max_price_cents) {
        (Action::Sell, Some(shares), Some(max_price_cents)) => Some(
            Order { action: Action::Sell, side: entry_side, shares, max_price_cents },
        ),
        _ => None,
    }
}

impl TradeDecision {
    /// The safe default: pass, with nothing else set.
    pub fn fallback() -> (r: TradeDecision)
        ensures
            r@ == fallback_view(),
    {
        TradeDecision {
            action: Action::Pass,
            side: None,
            shares: None,
            max_price_cents: None,
            reasoning: String::from_str("Failed to parse AI response"),
        }
    }

    /// Reads the tokens of decoded fields; `None` where the action or the
    /// side is no valid token.
    pub fn from_raw(raw: RawDecision) -> (r: Option<TradeDecision>)
        ensures
            match r {
                Some(decision) => decision_of(raw@) == Some(decision@),
                None => decision_of(raw@) is None,
            },
    {
        let action = match parse_action(raw.action.as_str()) {
            Some(action) => action,
            None => {
                return None;
            },
        };
        let side = match &raw.side {
            None => None,
            Some(token) => match parse_side(token.as_str()) {
                Some(side) => Some(side),
                None => {
                    return None;
                },
            },
        };
        Some(
            TradeDecision {
                action,
                side,
                shares: raw.shares,
                max_price_cents: raw.max_price_cents,
                reasoning: raw.reasoning,
            },
        )
    }

    /// The decision for what a decoder made of the JSON text. It never
    /// fails: whatever cannot be read becomes the fallback.
    pub fn resolve(decoded: Option<RawDecision>) -> (r: TradeDecision)
        ensures
            r@ == resolved(decoded_view(decoded)),
    {
        match decoded {
            Some(raw) => match TradeDecision::from_raw(raw) {
                Some(decision) => decision,
                None => TradeDecision::fallback(),
            },
            None => TradeDecision::fallback(),
        }
    }

    /// The order that closes a position on `entry_side`, if this decision,
    /// asked whether to close it, says to sell and nothing is missing.
    pub fn exit_order(&self, entry_side: Side) -> (r: Option<Order>)
        ensures
            r == exit_order_of(self@, entry_side),
            r matches Some(order) ==> order.action == Action::Sell && order.side == entry_side,
    {
        match (self.action, self.shares, self.max_price_cents) {
            (Action::Sell, Some(shares), Some(max_price_cents)) => Some(
                Order { action: Action::Sell, side: entry_side, shares, max_price_cents },
            ),
            _ => None,
        }
    }

    /// The order to place for this decision, if it asks for one and nothing
    /// is missing.
    pub fn order(&self) -> (r: Option<Order>)
        ensures
            r == order_of(self@),
    {
        match (self.action, self.side, self.shares, self.max_price_cents) {
            (Action::Pass, _, _, _) => None,
            (action, Some(side), Some(shares), Some(max_price_cents)) => Some(
                Order { action, side, shares, max_price_cents },
            ),
            _ => None,
        }
    }
}

/// The text of an adviser's reply: its content, where there is one and it
/// is not empty; else its reasoning, where there is one; else nothing.
pub open spec fn reply_of(content: Option<Seq<char>>, reasoning: Option<Seq<char>>) -> Option<
    Seq<char>,
> {
    match content {
        Some(text) => if text.len() > 0 {
            Some(text)
        } else {
            reasoning
        },
        None => reasoning,
    }
}

/// A text that may be absent, as plain values.
pub open spec fn text_view(text: Option<&str>) -> Option<Seq<char>> {
    match text {
        Some(t) => Some(t@),
        None => None,
    }
}

/// Chooses the text of an adviser's reply between its content and its
/// reasoning.
pub fn reply_text(content: Option<&str>, reasoning: Option<&str>) -> (r: Option<String>)
    ensures
        match reply_of(text_view(content), text_view(reasoning)) {
            Some(text) => r matches Some(chosen) && chosen@ == text,
            None => r is None,
        },
{
    match content {
        Some(text) => {
            if !text.is_empty() {
                return Some(String::from_str(text));
            }
        },
        None => {},
    }
    match reasoning {
        Some(text) => Some(String::from_str(text)),
        None => None,
    }
}

/// Recovers a decision from the free-form reply of an adviser. The JSON
/// text is found by `json_span` and handed to `decode`, which turns it into
/// fields or gives none; the fields' tokens are then read. The result is the
/// fallback, to pass, where the reply holds no JSON text, where `decode`
/// gives nothing, or where a token is not valid: a reply that cannot be read
/// is never taken for an order.
pub fn parse_decision<F: Fn(&str) -> Option<RawDecision>>(raw: &str, decode: F) -> (r:
    TradeDecision)
    requires
        forall|text: &str| call_requires(decode, (text,)),
    ensures
        match json_text(raw@) {
            None => r@ == fallback_view(),
            Some(found) => exists|text: &str, decoded: Option<RawDecision>|
                text@ == found && call_ensures(decode, (text,), decoded) && r@ == resolved(
                    decoded_view(decoded),
                ),
        },
{
    match json_span(raw) {
        None => TradeDecision::fallback(),
        Some(text) => {
            let decoded = decode(text);
            let ghost seen = decoded;
            let r = TradeDecision::resolve(decoded);
            assert(text@ == json_text(raw@)->0 && call_ensures(decode, (text,), seen) && r@
                == resolved(decoded_view(seen)));
            r
        },
    }
}

/// The fallback asks for no order, neither to open a position nor to close
/// one: a reply that could not be read moves nothing.
pub proof fn lemma_fallback_places_no_order(entry_side: Side)
    ensures
        order_of(fallback_view()) is None,
        exit_order_of(fallback_view(), entry_side) is None,
{
}

/// A reply with no fenced block and no `{` holds no JSON text.
pub proof fn lemma_no_brace_no_text(raw: Seq<char>)
    requires
        first_match(raw, fence_open(), 0) is None,
        forall|j: int| 0 <= j < raw.len() ==> raw[j] != '{',
    ensures
        json_text(raw) is None,
{
    crate::text::lemma_skip_spaces(raw, 0);
    crate::text::lemma_drop_spaces(raw, trim_start(raw), raw.len() as int);
    lemma_first_index_none(raw, '{', 0);
}

/// A reply with no fenced block that, trimmed, begins with `{` is read whole.
pub proof fn lemma_bare_object(json: Seq<char>)
    requires
        first_match(json, fence_open(), 0) is None,
        begins_with(trimmed(json), '{'),
    ensures
        json_text(json) == Some(trimmed(json)),
{
}

/// A fenced block is read from after its opening marker to its closing
/// marker, trimmed, whatever stands before and after: where the opening
/// marker stands nowhere before the block, and the closing marker nowhere
/// within `body`.
pub proof fn lemma_fenced_block(pre: Seq<char>, body: Seq<char>, post: Seq<char>)
    requires
        forall|j: int|
            0 <= j < pre.len() ==> !occurs_at(
                pre + fence_open() + body + fence_close() + post,
                fence_open(),
                j,
            ),
        forall|j: int|
            pre.len() + fence_open().len() <= j < pre.len() + fence_open().len() + body.len()
                ==> !occurs_at(
                pre + fence_open() + body + fence_close() + post,
                fence_close(),
                j,
            ),
    ensures
        json_text(pre + fence_open() + body + fence_close() + post) == Some(trimmed(body)),
{
    let raw = pre + fence_open() + body + fence_close() + post;
    let at = pre.len() as int;
    let start = at + fence_open().len();
    let end = start + body.len();
    assert(raw.subrange(at, start) =~= fence_open());
    lemma_first_match_is(raw, fence_open(), 0, at);
    assert(raw.subrange(end, end + fence_close().len()) =~= fence_close());
    lemma_first_match_is(raw, fence_close(), start, end);
    assert(raw.subrange(start, end) =~= body);
}

/// The round trip: a JSON text wrapped in a fenced block, with any prose
/// before and after, is read as the same text as when it stands alone. It
/// holds where the bare text has no opening marker and, trimmed, begins with
/// `{`, and where, in the wrapped text, the block's markers are the first of
/// their kind.
pub proof fn lemma_fenced_matches_bare(pre: Seq<char>, json: Seq<char>, post: Seq<char>)
    requires
        first_match(json, fence_open(), 0) is None,
        begins_with(trimmed(json), '{'),
        forall|j: int|
            0 <= j < pre.len() ==> !occurs_at(
                pre + fence_open() + json + fence_close() + post,
                fence_open(),
                j,
            ),
        forall|j: int|
            pre.len() + fence_open().len() <= j < pre.len() + fence_open().len() + json.len()
                ==> !occurs_at(
                pre + fence_open() + json + fence_close() + post,
                fence_close(),
                j,
            ),
    ensures
        json_text(pre + fence_open() + json + fence_close() + post) == json_text(json),
{
    lemma_fenced_block(pre, json, post);
    lemma_bare_object(json);
}

/// The two conditions on the markers hold where neither the prose before
/// the block nor the JSON text holds a backtick.
pub proof fn lemma_fenced_without_backticks(pre: Seq<char>, json: Seq<char>, post: Seq<char>)
    requires
        forall|j: int| 0 <= j < pre.len() ==> pre[j] != '`',
        forall|j: int| 0 <= j < json.len() ==> json[j] != '`',
        begins_with(trimmed(json), '{'),
    ensures
        json_text(pre + fence_open() + json + fence_close() + post) == json_text(json),
{
    reveal_strlit("```json");
    reveal_strlit("```");
    let raw = pre + fence_open() + json + fence_close() + post;
    let start = pre.len() + fence_open().len();
    assert forall|j: int| 0 <= j < pre.len() implies !occurs_at(raw, fence_open(), j) by {
        if occurs_at(raw, fence_open(), j) {
            assert(raw.subrange(j, j + fence_open().len())[0] == fence_open()[0]);
            assert(raw[j] == pre[j]);
        }
    }
    assert forall|j: int| start <= j < start + json.len() implies !occurs_at(
        raw,
        fence_close(),
        j,
    ) by {
        if occurs_at(raw, fence_close(), j) {
            assert(raw.subrange(j, j + fence_close().len())[0] == fence_close()[0]);
            assert(raw[j] == json[j - start]);
        }
    }
    assert forall|j: int| 0 <= j implies !occurs_at(json, fence_open(), j) by {
        if occurs_at(json, fence_open(), j) {
            assert(json.subrange(j, j + fence_open().len())[0] == fence_open()[0]);
        }
    }
    lemma_first_match_none(json, fence_open(), 0);
    lemma_fenced_matches_bare(pre, json, post);
}

/// A JSON object in the midst of prose is read as it stands: where the
/// reply has no fenced block and does not, trimmed, begin with `{`, where no
/// `{` stands before the object and no `}` after it.
pub proof fn lemma_object_in_prose(pre: Seq<char>, object: Seq<char>, post: Seq<char>)
    requires
        first_match(pre + object + post, fence_open(), 0) is None,
        !begins_with(trimmed(pre + object + post), '{'),
        object.len() >= 2,
        object.first() == '{',
        object.last() == '}',
        forall|j: int| 0 <= j < pre.len() ==> pre[j] != '{',
        forall|j: int| 0 <= j < post.len() ==> post[j] != '}',
    ensures
        json_text(pre + object + post) == Some(object),
{
    let raw = pre + object + post;
    let a = pre.len() as int;
    let b = a + object.len() - 1;
    assert(raw[a] == object[0]);
    assert(raw[b] == object[object.len() - 1]);
    assert forall|j: int| b < j < raw.len() implies raw[j] != '}' by {
        assert(raw[j] == post[j - a - object.len()]);
    }
    assert forall|j: int| 0 <= j < a implies raw[j] != '{' by {
        assert(raw[j] == pre[j]);
    }
    lemma_first_index_is(raw, '{', 0, a);
    lemma_last_index_is(raw, '}', raw.len() as int, b);
    assert(raw.subrange(a, b + 1) =~= object);
}

/// The round trip in prose: a JSON object with prose before and after it is
/// read as the same text as when it stands alone, and that text is the
/// object. It holds where the reply holds no opening marker of a fenced
/// block, where the prose before begins with a character that is neither
/// white space nor `{` and holds no `{`, and the prose after holds no `}`.
pub proof fn lemma_prose_matches_bare(pre: Seq<char>, object: Seq<char>, post: Seq<char>)
    requires
        first_match(pre + object + post, fence_open(), 0) is None,
        pre.len() > 0,
        !crate::text::is_space(pre[0]),
        object.len() >= 2,
        object.first() == '{',
        object.last() == '}',
        forall|j: int| 0 <= j < pre.len() ==> pre[j] != '{',
        forall|j: int| 0 <= j < post.len() ==> post[j] != '}',
    ensures
        json_text(pre + object + post) == Some(object),
        json_text(object) == Some(object),
{
    let raw = pre + object + post;
    // The reply, trimmed, begins with the first character of the prose.
    assert(raw[0] == pre[0]);
    crate::text::lemma_skip_spaces(raw, 0);
    crate::text::lemma_drop_spaces(raw, trim_start(raw), raw.len() as int);
    assert(trim_start(raw) == 0);
    if crate::text::trim_end(raw) > 0 {
        assert(trimmed(raw)[0] == raw[0]);
    }
    lemma_object_in_prose(pre, object, post);
    // The object alone has no marker either, and nothing to trim.
    lemma_first_match(raw, fence_open(), 0);
    assert forall|j: int| 0 <= j implies !occurs_at(object, fence_open(), j) by {
        if occurs_at(object, fence_open(), j) {
            assert(raw.subrange(pre.len() + j, pre.len() + j + fence_open().len())
                =~= object.subrange(j, j + fence_open().len()));
            assert(occurs_at(raw, fence_open(), pre.len() + j));
        }
    }
    lemma_first_match_none(object, fence_open(), 0);
    let n = object.len() as int;
    assert(!crate::text::is_space(object[0]));
    assert(!crate::text::is_space(object[n - 1]));
    assert(trim_start(object) == 0);
    assert(crate::text::trim_end(object) == n);
    assert(trimmed(object) =~= object);
}

} // verus!
