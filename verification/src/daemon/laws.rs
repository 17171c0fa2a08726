//! What the daemon and those who ask it may rely on of each other.

use vstd::prelude::*;
use vstd::utf8::encode_utf8;
use crate::daemon::{
    asks_for_status, asks_to_quit, request_of, response_head, response_of, says, splits_at,
    ControlErrorView,
};
use crate::text::{decimal_text, digit, occurs_at, trimmed};

verus! {

/// Whether a text holds no carriage return.
pub open spec fn has_no_return(s: Seq<char>) -> bool {
    forall|i: int| 0 <= i < s.len() ==> s[i] != '\r'
}

spec fn checked_for_returns(s: Seq<char>) -> bool
    decreases s.len(),
{
    s.len() == 0 || (s.last() != '\r' && checked_for_returns(s.drop_last()))
}

proof fn lemma_checked_for_returns(s: Seq<char>)
    requires
        checked_for_returns(s),
    ensures
        has_no_return(s),
    decreases s.len(),
{
    if s.len() > 0 {
        lemma_checked_for_returns(s.drop_last());
        assert forall|i: int| 0 <= i < s.len() implies s[i] != '\r' by {
            if i < s.len() - 1 {
                assert(s.drop_last()[i] == s[i]);
            }
        }
    }
}

proof fn lemma_decimal_text(n: nat)
    ensures
        decimal_text(n).len() > 0,
        forall|i: int| 0 <= i < decimal_text(n).len() ==> '0' <= #[trigger] decimal_text(n)[i]
            <= '9',
        n < 10 <==> decimal_text(n).len() == 1,
        n < 100 <==> decimal_text(n).len() <= 2,
        n < 1000 <==> decimal_text(n).len() <= 3,
    decreases n,
{
    reveal_with_fuel(decimal_text, 4);
    if n >= 10 {
        lemma_decimal_text(n / 10);
    }
}

proof fn lemma_splits_at(
    first: Seq<char>,
    second: Seq<char>,
    third: Seq<char>,
    fourth: Seq<char>,
    body: Seq<char>,
)
    requires
        has_no_return(first),
        has_no_return(second),
        has_no_return(third),
        has_no_return(fourth),
        second.len() > 0,
        third.len() > 0,
        fourth.len() > 0,
    ensures
        ({
            let head = first + "\r\n"@ + second + "\r\n"@ + third + "\r\n"@ + fourth;
            splits_at(head + "\r\n\r\n"@ + body, head.len() as int)
        }),
{
    reveal_strlit("\r\n");
    reveal_strlit("\r\n\r\n");
    let head = first + "\r\n"@ + second + "\r\n"@ + third + "\r\n"@ + fourth;
    let full = head + "\r\n\r\n"@ + body;
    assert(full.subrange(head.len() as int, head.len() as int + 4) =~= "\r\n\r\n"@);
    assert forall|j: int| j < head.len() implies !occurs_at(full, "\r\n\r\n"@, j) by {
        if occurs_at(full, "\r\n\r\n"@, j) {
            let here = full.subrange(j, j + 4);
            assert(here[0] == '\r');
            assert(here[2] == '\r');
            let b = first.len() as int + 2;
            let c = b + second.len() + 2;
            let d = c + third.len() + 2;
            if j < b - 2 {
                assert(full[j] == first[j]);
            } else if j == b - 2 {
                assert(full[j + 2] == second[0]);
            } else if j == b - 1 {
                assert(full[j] == '\n');
            } else if j < c - 2 {
                assert(full[j] == second[j - b]);
            } else if j == c - 2 {
                assert(full[j + 2] == third[0]);
            } else if j == c - 1 {
                assert(full[j] == '\n');
            } else if j < d - 2 {
                assert(full[j] == third[j - c]);
            } else if j == d - 2 {
                assert(full[j + 2] == fourth[0]);
            } else if j == d - 1 {
                assert(full[j] == '\n');
            } else {
                assert(full[j] == fourth[j - d]);
            }
        }
    }
}

proof fn lemma_head_ends_first(status: nat, reason: Seq<char>, body: Seq<char>)
    requires
        has_no_return(reason),
    ensures
        splits_at(
            response_of(status, reason, body),
            response_head(status, reason, body).len() as int,
        ),
{
    let first = "HTTP/1.1 "@ + decimal_text(status) + " "@ + reason;
    let second = "Content-Type: application/json; charset=utf-8"@;
    let length = decimal_text(encode_utf8(body).len());
    let third = "Content-Length: "@ + length;
    let fourth = "Connection: close"@;
    assert(has_no_return(first)) by {
        reveal_strlit("HTTP/1.1 ");
        reveal_strlit(" ");
        lemma_decimal_text(status);
        reveal_with_fuel(checked_for_returns, 10);
        lemma_checked_for_returns("HTTP/1.1 "@);
        assert forall|i: int| 0 <= i < first.len() implies first[i] != '\r' by {
            let a = "HTTP/1.1 "@.len() as int;
            let b = a + decimal_text(status).len();
            if i < a {
                assert(first[i] == "HTTP/1.1 "@[i]);
            } else if i < b {
                assert(first[i] == decimal_text(status)[i - a]);
            } else if i == b {
                assert(first[i] == ' ');
            } else {
                assert(first[i] == reason[i - b - 1]);
            }
        }
    }
    assert(has_no_return(second) && second.len() > 0) by {
        reveal_strlit("Content-Type: application/json; charset=utf-8");
        reveal_with_fuel(checked_for_returns, 46);
        lemma_checked_for_returns(second);
    }
    assert(has_no_return(third) && third.len() > 0) by {
        reveal_strlit("Content-Length: ");
        lemma_decimal_text(encode_utf8(body).len());
        reveal_with_fuel(checked_for_returns, 17);
        lemma_checked_for_returns("Content-Length: "@);
        assert forall|i: int| 0 <= i < third.len() implies third[i] != '\r' by {
            let a = "Content-Length: "@.len() as int;
            if i < a {
                assert(third[i] == "Content-Length: "@[i]);
            } else {
                assert(third[i] == length[i - a]);
            }
        }
    }
    assert(has_no_return(fourth) && fourth.len() > 0) by {
        reveal_strlit("Connection: close");
        reveal_with_fuel(checked_for_returns, 18);
        lemma_checked_for_returns(fourth);
    }
    lemma_splits_at(first, second, third, fourth, body);
    assert(first + "\r\n"@ + second + "\r\n"@ + third + "\r\n"@ + fourth =~= response_head(
        status,
        reason,
        body,
    ));
}

proof fn lemma_status_shows(status: nat, reason: Seq<char>, body: Seq<char>)
    ensures
        "HTTP/1.1 200 "@.is_prefix_of(response_head(status, reason, body)) <==> status == 200,
{
    let head = response_head(status, reason, body);
    let text = decimal_text(status);
    reveal_strlit("HTTP/1.1 200 ");
    reveal_strlit("HTTP/1.1 ");
    reveal_strlit(" ");
    lemma_decimal_text(status);
    assert forall|i: int| 0 <= i < text.len() implies head[9 + i] == text[i] by {}
    assert(head[9 + text.len() as int] == ' ');
    assert forall|i: int| 0 <= i < 9 implies head[i] == "HTTP/1.1 "@[i] by {}
    let taken = head.take(13);
    if status == 200 {
        reveal_with_fuel(decimal_text, 3);
        assert(text =~= seq!['2', '0', '0']);
        assert("HTTP/1.1 200 "@ =~= taken);
    } else if "HTTP/1.1 200 "@.is_prefix_of(head) {
        assert(taken == "HTTP/1.1 200 "@);
        assert(taken[9] == '2' && taken[10] == '0' && taken[11] == '0' && taken[12] == ' ');
        assert(head[9] == '2' && head[10] == '0' && head[11] == '0' && head[12] == ' ');
        if text.len() == 1 {
            assert(head[10] == ' ');
        } else if text.len() == 2 {
            assert(head[11] == ' ');
        } else if text.len() == 3 {
            reveal_with_fuel(decimal_text, 3);
            assert(text[0] == digit(status / 100));
            assert(text[1] == digit((status / 10) % 10));
            assert(text[2] == digit(status % 10));
        } else {
            assert(head[12] == text[3]);
        }
        assert(false);
    }
}

/// What the daemon writes is what those who ask it read: a response of status
/// 200 gives them its body, without white space around it, and any other gives
/// them an error with the body as it is.
pub proof fn law_responses_are_understood(
    status: nat,
    reason: Seq<char>,
    body: Seq<char>,
    r: Result<Seq<char>, ControlErrorView>,
)
    requires
        has_no_return(reason),
        says(response_of(status, reason, body), r),
    ensures
        r == if status == 200 {
            Ok(trimmed(body))
        } else {
            Err(ControlErrorView::Refused(body))
        },
{
    let head = response_head(status, reason, body);
    let response = response_of(status, reason, body);
    lemma_head_ends_first(status, reason, body);
    lemma_status_shows(status, reason, body);
    assert(occurs_at(response, "\r\n\r\n"@, head.len() as int));
    assert(response.take(head.len() as int) =~= head);
    assert(response.skip(head.len() as int + "\r\n\r\n"@.len()) =~= body);
    assert forall|at: int| #[trigger] splits_at(response, at) implies at == head.len() by {
        if at < head.len() {
            assert(!occurs_at(response, "\r\n\r\n"@, at));
        }
        if at > head.len() {
            assert(!occurs_at(response, "\r\n\r\n"@, head.len() as int));
        }
    }
}

proof fn lemma_encoded_prefix(s: Seq<char>, rest: Seq<char>)
    ensures
        encode_utf8(s).is_prefix_of(encode_utf8(s + rest)),
    decreases s.len(),
{
    if s.len() == 0 {
    } else {
        lemma_encoded_prefix(s.drop_first(), rest);
        assert((s + rest).drop_first() =~= s.drop_first() + rest);
        let first = vstd::utf8::encode_scalar(s[0] as u32);
        let short = encode_utf8(s.drop_first());
        let long = encode_utf8(s.drop_first() + rest);
        assert((first + long).take((first + short).len() as int) =~= first + short);
    }
}

/// The daemon understands those who ask it: a request for the status is taken
/// for one, and so is a request to quit.
pub proof fn law_requests_are_understood(addr: Seq<char>)
    ensures
        asks_for_status(encode_utf8(request_of("GET"@, "/status"@, addr))),
        asks_to_quit(encode_utf8(request_of("POST"@, "/quit"@, addr))),
        !asks_for_status(encode_utf8(request_of("POST"@, "/quit"@, addr))),
{
    reveal_strlit("GET");
    reveal_strlit("POST");
    reveal_strlit(" ");
    reveal_strlit("/status");
    reveal_strlit("/quit");
    reveal_strlit("GET /status ");
    reveal_strlit("POST /quit ");
    reveal_strlit(" HTTP/1.1\r\nHost: ");
    let rest = " HTTP/1.1\r\nHost: "@.drop_first() + addr
        + "\r\nConnection: close\r\nContent-Length: 0\r\n\r\n"@;
    let status = request_of("GET"@, "/status"@, addr);
    let quit = request_of("POST"@, "/quit"@, addr);
    assert(status =~= "GET /status "@ + rest);
    assert(quit =~= "POST /quit "@ + rest);
    lemma_encoded_prefix("GET /status "@, rest);
    lemma_encoded_prefix("POST /quit "@, rest);
    let asked = encode_utf8("GET /status "@);
    assert(asked[0] == 0x47 && encode_utf8(quit)[0] == 0x50) by {
        assert("GET /status "@[0] == 'G' && quit[0] == 'P');
        assert(vstd::utf8::encode_scalar('G' as u32)[0] == 0x47) by {
            assert(0x47u32 & 0x7F == 0x47) by (bit_vector);
        }
        assert(vstd::utf8::encode_scalar('P' as u32)[0] == 0x50) by {
            assert(0x50u32 & 0x7F == 0x50) by (bit_vector);
        }
    }
    if asked.is_prefix_of(encode_utf8(quit)) {
        assert(encode_utf8(quit).take(asked.len() as int)[0] == encode_utf8(quit)[0]);
    }
}

/// Any response with an empty line is taken by what stands before the first one:
/// if that begins as a status of 200 does, what follows is the answer, without
/// white space around it, and otherwise it is the error, as it is.
pub proof fn law_any_response(
    response: Seq<char>,
    at: int,
    r: Result<Seq<char>, ControlErrorView>,
)
    requires
        occurs_at(response, "\r\n\r\n"@, at),
        forall|j: int| j < at ==> !occurs_at(response, "\r\n\r\n"@, j),
        says(response, r),
    ensures
        "HTTP/1.1 200 "@.is_prefix_of(response.take(at)) ==> r == Ok::<
            Seq<char>,
            ControlErrorView,
        >(trimmed(response.skip(at + 4))),
        !"HTTP/1.1 200 "@.is_prefix_of(response.take(at)) ==> r == Err::<
            Seq<char>,
            ControlErrorView,
        >(ControlErrorView::Refused(response.skip(at + 4))),
{
    reveal_strlit("\r\n\r\n");
    assert forall|other: int| #[trigger] splits_at(response, other) implies other == at by {
        if other < at {
            assert(!occurs_at(response, "\r\n\r\n"@, other));
        }
        if other > at {
            assert(!occurs_at(response, "\r\n\r\n"@, at));
        }
    }
}

/// A response without an empty line says nothing.
pub proof fn law_no_response(response: Seq<char>, r: Result<Seq<char>, ControlErrorView>)
    requires
        forall|j: int| !occurs_at(response, "\r\n\r\n"@, j),
        says(response, r),
    ensures
        r == Err::<Seq<char>, ControlErrorView>(ControlErrorView::Invalid(response)),
{
}

} // verus!
