use vstd::prelude::*;

use crate::status::LlmError;

verus! {

/// The score the evaluation backend answers when question and answer match.
pub const INFER_CHECK_SUCCESS: i32 = 1;

/// The score the evaluation backend answers when they do not.
pub const INFER_CHECK_FAIL: i32 = 0;

/// Who speaks a message handed to the inference backend.
#[derive(Debug, Clone, Copy, PartialEq, Eq, Structural)]
pub enum MessageRole {
    System,
    User,
    Assistant,
    Function,
}

/// One turn of a conversation handed to the inference backend.
#[derive(Debug, Clone, PartialEq)]
pub struct PromptMessage {
    pub role: MessageRole,
    pub content: String,
}

/// The messages sent for one inference call: the caller's context, if any,
/// followed by the prompt as the user's turn. An empty prompt is rejected.
pub fn build_infer_messages(user_input: &str, context_messages: Option<Vec<PromptMessage>>) -> (r:
    Result<Vec<PromptMessage>, LlmError>)
    ensures
        user_input@.len() == 0 <==> r == Err::<Vec<PromptMessage>, LlmError>(
            LlmError::InvalidInput,
        ),
        user_input@.len() > 0 ==> {
            let msgs = r->Ok_0@;
            let ctx = match context_messages {
                Some(c) => c@,
                None => Seq::<PromptMessage>::empty(),
            };
            &&& r is Ok
            &&& msgs.len() == ctx.len() + 1
            &&& forall|i: int| 0 <= i < ctx.len() ==> msgs[i] == ctx[i]
            &&& msgs.last().role == MessageRole::User
            &&& msgs.last().content@ == user_input@
        },
{
    if user_input.unicode_len() == 0 {
        return Err(LlmError::InvalidInput);
    }
    let mut messages: Vec<PromptMessage> = match context_messages {
        Some(c) => c,
        None => Vec::new(),
    };
    messages.push(PromptMessage { role: MessageRole::User, content: user_input.to_string() });
    Ok(messages)
}

/// The fixed evaluation instruction that precedes the question.
pub open spec fn check_prompt_head() -> Seq<char> {
    "请评估问题和答案是否匹配，匹配：1，不匹配：0。\n# 说明\n直接提供最终分数，不要解释和说明\n# 问题\n"@
}

/// The fixed separator between the question and the answer.
pub open spec fn check_prompt_mid() -> Seq<char> {
    "\n# 回答\n"@
}

/// The messages sent to have the backend judge whether an answer matches a
/// question: the caller's context, then one user turn carrying the fixed
/// instruction with the question and the answer spliced in. An empty
/// question or an empty answer is rejected.
pub fn build_check_messages(
    user_input: &str,
    output: &str,
    context_messages: Option<Vec<PromptMessage>>,
) -> (r: Result<Vec<PromptMessage>, LlmError>)
    ensures
        (user_input@.len() == 0 || output@.len() == 0) <==> r == Err::<
            Vec<PromptMessage>,
            LlmError,
        >(LlmError::InvalidInput),
        (user_input@.len() > 0 && output@.len() > 0) ==> {
            let msgs = r->Ok_0@;
            let ctx = match context_messages {
                Some(c) => c@,
                None => Seq::<PromptMessage>::empty(),
            };
            &&& r is Ok
            &&& msgs.len() == ctx.len() + 1
            &&& forall|i: int| 0 <= i < ctx.len() ==> msgs[i] == ctx[i]
            &&& msgs.last().role == MessageRole::User
            &&& msgs.last().content@ == check_prompt_head() + user_input@ + check_prompt_mid()
                + output@
        },
{
    if user_input.unicode_len() == 0 {
        return Err(LlmError::InvalidInput);
    }
    if output.unicode_len() == 0 {
        return Err(LlmError::InvalidInput);
    }
    let mut content =
        "请评估问题和答案是否匹配，匹配：1，不匹配：0。\n# 说明\n直接提供最终分数，不要解释和说明\n# 问题\n".to_string();
    content.append(user_input);
    content.append("\n# 回答\n");
    content.append(output);
    let mut messages: Vec<PromptMessage> = match context_messages {
        Some(c) => c,
        None => Vec::new(),
    };
    messages.push(PromptMessage { role: MessageRole::User, content });
    Ok(messages)
}

/// An ASCII decimal digit.
pub open spec fn is_digit(c: char) -> bool {
    ('0' as u32) <= (c as u32) <= ('9' as u32)
}

/// The number the digit string `s` spells out.
pub open spec fn digits_value(s: Seq<char>) -> int
    decreases s.len(),
{
    if s.len() == 0 {
        0
    } else {
        digits_value(s.drop_last()) * 10 + ((s.last() as u32) - ('0' as u32))
    }
}

/// Every character of `s` is a digit.
pub open spec fn all_digits(s: Seq<char>) -> bool {
    forall|i: int| 0 <= i < s.len() ==> is_digit(#[trigger] s[i])
}

/// The value a digit string spells out under a sign, when it is one or more
/// digits and the signed value lies within the 32-bit range.
pub open spec fn spec_parse_digits(ds: Seq<char>, sign: int) -> Option<int> {
    if ds.len() > 0 && all_digits(ds) && i32::MIN <= sign * digits_value(ds) <= i32::MAX {
        Some(sign * digits_value(ds))
    } else {
        None
    }
}

/// What a signed 32-bit decimal literal means: an optional sign, then one or
/// more digits, and a value within the type's range; anything else means
/// nothing.
pub open spec fn spec_parse_i32(s: Seq<char>) -> Option<int> {
    if s.len() > 0 && s[0] == '-' {
        spec_parse_digits(s.skip(1), -1)
    } else if s.len() > 0 && s[0] == '+' {
        spec_parse_digits(s.skip(1), 1)
    } else {
        spec_parse_digits(s, 1)
    }
}

proof fn lemma_digits_value_nonneg(s: Seq<char>)
    requires
        forall|i: int| 0 <= i < s.len() ==> is_digit(#[trigger] s[i]),
    ensures
        digits_value(s) >= 0,
    decreases s.len(),
{
    if s.len() > 0 {
        lemma_digits_value_nonneg(s.drop_last());
    }
}

proof fn lemma_digits_value_grows(s: Seq<char>, k: int)
    requires
        forall|i: int| 0 <= i < s.len() ==> is_digit(#[trigger] s[i]),
        0 <= k <= s.len(),
    ensures
        digits_value(s) >= digits_value(s.take(k)),
    decreases s.len() - k,
{
    if k < s.len() {
        lemma_digits_value_grows(s, k + 1);
        lemma_digits_value_nonneg(s.take(k));
        assert(s.take(k + 1).drop_last() =~= s.take(k));
        assert(digits_value(s.take(k + 1)) == digits_value(s.take(k)) * 10 + ((s[k] as u32) - ('0'
            as u32)));
    } else {
        assert(s.take(k) =~= s);
    }
}

/// Reads the score the evaluation backend answered with, as a signed 32-bit
/// decimal literal. A response of any other shape is a backend fault, not a
/// crash.
pub fn parse_score(s: &str) -> (r: Result<i32, LlmError>)
    ensures
        r is Ok <==> spec_parse_i32(s@) is Some,
        r is Ok ==> r->Ok_0 as int == spec_parse_i32(s@)->0,
        r is Err ==> r == Err::<i32, LlmError>(LlmError::BackendError),
{
    let len = s.unicode_len();
    if len == 0 {
        return Err(LlmError::BackendError);
    }
    let first = s.get_char(0);
    let negative = first == '-';
    let start: usize = if first == '-' || first == '+' {
        1
    } else {
        0
    };
    if len == start {
        return Err(LlmError::BackendError);
    }
    let ghost ds = if start == 1 {
        s@.skip(1)
    } else {
        s@
    };
    let mut acc: i64 = 0;
    let mut k: usize = start;
    while k < len
        invariant
            start <= k <= len,
            start == 0 || start == 1,
            start == 1 <==> (s@[0] == '-' || s@[0] == '+'),
            negative <==> s@[0] == '-',
            len == s@.len(),
            len > start,
            ds == (if start == 1 {
                s@.skip(1)
            } else {
                s@
            }),
            ds.len() == len - start,
            forall|i: int| 0 <= i < k - start ==> is_digit(#[trigger] ds[i]),
            0 <= acc <= 0x8000_0000,
            acc == digits_value(ds.take(k - start)),
        decreases len - k,
    {
        let c = s.get_char(k);
        let u = c as u32;
        if !(('0' as u32) <= u && u <= ('9' as u32)) {
            proof {
                assert(ds[k - start] == s@[k as int]);
                assert(!is_digit(ds[k - start]));
                assert(!all_digits(ds));
                assert(spec_parse_i32(s@) is None);
            }
            return Err(LlmError::BackendError);
        }
        proof {
            assert(ds[k - start] == s@[k as int]);
            assert(ds.take(k - start + 1).drop_last() =~= ds.take(k - start));
        }
        let d = (u - ('0' as u32)) as i64;
        acc = acc * 10 + d;
        k = k + 1;
        if acc > 0x8000_0000 {
            proof {
                if all_digits(ds) {
                    lemma_digits_value_grows(ds, k - start);
                    lemma_digits_value_nonneg(ds);
                    assert(digits_value(ds) >= acc);
                }
                assert(spec_parse_i32(s@) is None);
            }
            return Err(LlmError::BackendError);
        }
    }
    proof {
        assert(ds.take(len - start) =~= ds);
    }
    if negative {
        Ok((-acc) as i32)
    } else {
        if acc > 0x7fff_ffff {
            return Err(LlmError::BackendError);
        }
        Ok(acc as i32)
    }
}

/// The fixed instruction that asks the backend for a random question.
pub open spec fn random_question_text() -> Seq<char> {
    "简单直接给我随机出一个问题，文本长度在10-100之间。不需要解释和说明。"@
}

/// The single message sent to have the backend pose a random question.
pub fn build_random_question_messages() -> (r: Vec<PromptMessage>)
    ensures
        r@.len() == 1,
        r@[0].role == MessageRole::User,
        r@[0].content@ == random_question_text(),
{
    let mut messages: Vec<PromptMessage> = Vec::new();
    messages.push(
        PromptMessage {
            role: MessageRole::User,
            content: "简单直接给我随机出一个问题，文本长度在10-100之间。不需要解释和说明。".to_string(),
        },
    );
    messages
}

} // verus!
