//! The scripts that relay a transport action into the page's player.
use vstd::prelude::*;

use crate::outside;

verus! {

/// What the relay script says before the action.
pub open spec fn relay_head() -> Seq<char> {
    "(function(a){try{if(typeof window.__skMediaControl==='function'){window.__skMediaControl(a);}}catch(e){}try{window.dispatchEvent(new CustomEvent('sk-media-control',{detail:{action:a}}));}catch(e){}})("@
}

/// What the cold-start script says before the action.
pub open spec fn cold_head() -> Seq<char> {
    "(function(a){if(window.__skColdControlDone)return;if(typeof window.__skMediaControl!=='function')return;window.__skColdControlDone=true;try{window.__skMediaControl(a);}catch(e){}try{window.dispatchEvent(new CustomEvent('sk-media-control',{detail:{action:a}}));}catch(e){}})("@
}

/// The string literal that stands for an action in a script, given the JSON encoder's result: an
/// empty literal where it has none.
pub fn literal_or_empty(encoded: Option<String>) -> (r: String)
    ensures
        match encoded {
            Some(s) => r == s,
            None => r@ == "\"\""@,
        },
{
    match encoded {
        Some(s) => s,
        None => "\"\"".to_string(),
    }
}

/// The script that hands `action` to the page's player once the player is there, and only once
/// however often the script runs.
pub fn cold_start_script(action: &str) -> (r: String)
    ensures
        r@ == cold_head() + outside::json_string(action@) + ");"@,
{
    let literal: String = literal_or_empty(outside::to_json_string(action));
    let mut js: String = "(function(a){if(window.__skColdControlDone)return;if(typeof window.__skMediaControl!=='function')return;window.__skColdControlDone=true;try{window.__skMediaControl(a);}catch(e){}try{window.dispatchEvent(new CustomEvent('sk-media-control',{detail:{action:a}}));}catch(e){}})(".to_string();
    js.append(literal.as_str());
    js.append(");");
    js
}

// ---------------------------------------------------------------------------
// Laws
// ---------------------------------------------------------------------------

/// The index of the double quote that ends a string literal, for a script engine that has read the
/// literal up to `i`: a backslash takes the next character with it, and a line break ends the
/// script in an error.
pub open spec fn literal_end(s: Seq<char>, i: nat) -> Option<nat>
    decreases s.len() - i,
{
    if i >= s.len() || s[i as int] == '\n' || s[i as int] == '\r' {
        None
    } else if s[i as int] == '"' {
        Some(i)
    } else if s[i as int] == '\\' {
        if i + 1 < s.len() {
            literal_end(s, i + 2)
        } else {
            None
        }
    } else {
        literal_end(s, i + 1)
    }
}

/// A script engine reads over the encoding of one character.
proof fn lemma_reads_over_char(before: Seq<char>, c: char, after: Seq<char>)
    ensures
        literal_end(before + outside::json_char(c) + after, before.len()) == literal_end(
            before + outside::json_char(c) + after,
            before.len() + outside::json_char(c).len(),
        ),
{
    let e = outside::json_char(c);
    let s = before + e + after;
    let n = before.len() as int;
    assert forall|i: int| 0 <= i < e.len() implies s[n + i] == e[i] by {}
    assert(s[n] == e[0]);
    if e.len() == 6 {
        assert(s[n + 2] == '0' && s[n + 3] == '0');
        assert(s[n + 4] == e[4] && s[n + 5] == e[5]);
        reveal_with_fuel(literal_end, 7);
    } else {
        reveal_with_fuel(literal_end, 3);
    }
}

/// A script engine reads over the encoding of a text.
proof fn lemma_reads_over_chars(before: Seq<char>, text: Seq<char>, after: Seq<char>)
    ensures
        literal_end(before + outside::json_chars(text) + after, before.len()) == literal_end(
            before + outside::json_chars(text) + after,
            before.len() + outside::json_chars(text).len(),
        ),
    decreases text.len(),
{
    if text.len() > 0 {
        let front = outside::json_chars(text.drop_last());
        let last = outside::json_char(text.last());
        lemma_reads_over_chars(before, text.drop_last(), last + after);
        lemma_reads_over_char(before + front, text.last(), after);
        assert(before + outside::json_chars(text) + after =~= before + front + (last + after));
        assert(before + outside::json_chars(text) + after =~= (before + front) + last + after);
    }
}

/// No action breaks out of its string literal: whatever characters it holds and whatever follows,
/// the literal that stands for it ends at its own closing quote.
pub proof fn law_action_stays_in_literal(action: Seq<char>, after: Seq<char>)
    ensures
        outside::json_string(action).len() >= 2,
        outside::json_string(action)[0] == '"',
        literal_end(outside::json_string(action) + after, 1) == Some(
            (outside::json_string(action).len() - 1) as nat,
        ),
{
    let open = seq!['"'];
    let chars = outside::json_chars(action);
    lemma_reads_over_chars(open, action, open + after);
    let s = outside::json_string(action) + after;
    assert(s =~= open + chars + (open + after));
    assert(s[1 + chars.len() as int] == '"');
}

} // verus!
