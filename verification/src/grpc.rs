use crate::text::{echo_prefix, echo_reply};
use vstd::prelude::*;
use vstd::string::*;

verus! {

/// Request of the unary `Add` call.
pub struct AddRequest {
    pub a: i32,
    pub b: i32,
}

/// Reply of the unary `Add` call.
pub struct AddResponse {
    pub result: i32,
}

/// Request of the server-streaming `CountUp` call.
pub struct CountRequest {
    pub count: i32,
}

/// One message of the `CountUp` stream.
pub struct CountResponse {
    pub value: i32,
}

/// One message of the client-streaming `Sum` call.
pub struct NumberRequest {
    pub value: i32,
}

/// Reply of the `Sum` call.
pub struct SumResponse {
    pub result: i32,
}

/// A message of the bidirectional `Chat` call.
pub struct ChatMessage {
    pub text: String,
}

/// The gRPC status codes that the service answers with.
#[derive(Clone, Copy, Debug, PartialEq, Eq, Structural)]
pub enum Code {
    InvalidArgument,
}

/// A refused call: its status code and message.
pub struct RpcError {
    pub code: Code,
    pub message: String,
}

/// The text with which `CountUp` refuses a count below one.
pub open spec fn count_must_be_positive() -> Seq<char> {
    seq![
        'c', 'o', 'u', 'n', 't', ' ', 'm', 'u', 's', 't', ' ', 'b', 'e', ' ', 'p', 'o', 's', 'i',
        't', 'i', 'v', 'e',
    ]
}

/// The values `from, from + 1, ..., to` (empty when `from > to`).
pub open spec fn range_inclusive(from: int, to: int) -> Seq<i32> {
    Seq::new(if from <= to { (to - from + 1) as nat } else { 0 }, |i: int| (from + i) as i32)
}

/// `range_inclusive(from, to)` holds every integer from `from` to `to`, in
/// increasing order, each once: `to - from + 1` values when `from <= to`,
/// none otherwise, the `i`-th being `from + i`.
pub proof fn law_range_inclusive(from: i32, to: i32)
    ensures
        from <= to ==> range_inclusive(from as int, to as int).len() == to - from + 1,
        from > to ==> range_inclusive(from as int, to as int).len() == 0,
        forall|i: int|
            0 <= i < range_inclusive(from as int, to as int).len() ==> #[trigger] range_inclusive(
                from as int,
                to as int,
            )[i] as int == from + i,
{
    assert forall|i: int|
        0 <= i < range_inclusive(from as int, to as int).len() implies #[trigger] range_inclusive(
        from as int,
        to as int,
    )[i] as int == from + i by {
        assert(i32::MIN <= from + i <= i32::MAX);
    }
}

/// A `CountUp` stream for a positive count sends exactly `count` values:
/// first 1, last `count`, each one more than the one before.
pub proof fn law_count_up_values(count: i32)
    requires
        count >= 1,
    ensures
        range_inclusive(1, count as int).len() == count,
        range_inclusive(1, count as int)[0] == 1,
        range_inclusive(1, count as int)[count - 1] == count,
        forall|i: int|
            0 <= i < count ==> #[trigger] range_inclusive(1, count as int)[i] as int == i + 1,
{
    law_range_inclusive(1, count);
}

/// The stream of a `CountUp` call: the values that are still to be sent.
pub struct CountUp {
    next: i64,
    count: i32,
}

impl CountUp {
    /// The values that this stream has still to send, in order.
    pub closed spec fn remaining(&self) -> Seq<i32> {
        range_inclusive(self.next as int, self.count as int)
    }

    pub closed spec fn wf(&self) -> bool {
        1 <= self.next <= self.count as int + 1
    }

    /// The next value of the stream, or `None` once every value was sent.
    pub fn next(&mut self) -> (value: Option<CountResponse>)
        requires
            old(self).wf(),
        ensures
            final(self).wf(),
            old(self).remaining().len() == 0 ==> value is None && final(self).remaining()
                == old(self).remaining(),
            old(self).remaining().len() > 0 ==> (value matches Some(r) && r.value
                == old(self).remaining()[0] && final(self).remaining()
                == old(self).remaining().drop_first()),
    {
        if self.next <= self.count as i64 {
            let value: i32 = self.next as i32;
            self.next = self.next + 1;
            proof {
                assert(self.remaining() =~= old(self).remaining().drop_first());
            }
            Some(CountResponse { value })
        } else {
            None
        }
    }
}

/// The sum of the values of a `Sum` stream.
pub open spec fn total(numbers: Seq<NumberRequest>) -> int
    decreases numbers.len(),
{
    if numbers.len() == 0 {
        0
    } else {
        total(numbers.drop_last()) + numbers.last().value
    }
}

/// The sum of a stream adds every value, whatever its sign: nothing sums to
/// 0, one more message adds its value, and two streams one after the other
/// sum to the sum of their sums.
pub proof fn law_total_adds_every_value(s: Seq<NumberRequest>, x: NumberRequest, t: Seq<NumberRequest>)
    ensures
        total(Seq::<NumberRequest>::empty()) == 0,
        total(s.push(x)) == total(s) + x.value,
        total(seq![x]) == x.value,
        total(s + t) == total(s) + total(t),
    decreases t.len(),
{
    assert(s.push(x).drop_last() =~= s);
    assert(seq![x].drop_last() =~= Seq::<NumberRequest>::empty());
    if t.len() == 0 {
        assert(s + t =~= s);
    } else {
        law_total_adds_every_value(s, x, t.drop_last());
        assert((s + t).drop_last() =~= s + t.drop_last());
        assert((s + t).last() == t.last());
    }
}

/// Every running sum of the stream fits in an `i32`.
pub open spec fn running_sums_fit(numbers: Seq<NumberRequest>) -> bool {
    forall|k: int|
        0 <= k <= numbers.len() ==> i32::MIN <= #[trigger] total(numbers.take(k)) <= i32::MAX
}

/// The running sum of a `Sum` stream, one message at a time.
pub struct Summation {
    result: i32,
}

impl Summation {
    /// The sum so far.
    pub closed spec fn value(&self) -> int {
        self.result as int
    }

    /// A sum of no values.
    pub fn new() -> (s: Self)
        ensures
            s.value() == 0,
    {
        Summation { result: 0 }
    }

    /// Whether adding `number` keeps the sum within `i32`.
    pub fn can_add(&self, number: &NumberRequest) -> (fits: bool)
        ensures
            fits == (i32::MIN <= self.value() + number.value <= i32::MAX),
    {
        let sum: i64 = self.result as i64 + number.value as i64;
        i32::MIN as i64 <= sum && sum <= i32::MAX as i64
    }

    /// Adds one value of the stream.
    pub fn add(&mut self, number: NumberRequest)
        requires
            i32::MIN <= old(self).value() + number.value <= i32::MAX,
        ensures
            final(self).value() == old(self).value() + number.value,
    {
        self.result = self.result + number.value;
    }

    /// The reply once the stream has ended.
    pub fn finish(self) -> (response: SumResponse)
        ensures
            response.result == self.value(),
    {
        SumResponse { result: self.result }
    }
}

/// What the chat service receives next from its client.
pub enum ChatIncoming {
    Message(ChatMessage),
    End,
    Failed,
}

/// What the chat service does with it.
pub enum ChatStep {
    /// Send this reply and go on receiving.
    Reply(ChatMessage),
    /// Close the reply stream.
    Stop,
    /// Pass the client's error on and close the reply stream.
    ForwardErrorAndStop,
}

/// The demo gRPC service.
pub struct Demo;

impl Demo {
    /// The unary `Add` call: the sum of the two numbers, which must fit in an
    /// `i32`.
    pub fn add(&self, request: AddRequest) -> (response: AddResponse)
        requires
            i32::MIN <= request.a + request.b <= i32::MAX,
        ensures
            response.result == request.a + request.b,
    {
        AddResponse { result: request.a + request.b }
    }

    /// The server-streaming `CountUp` call: the values `1..=count`, or
    /// `InvalidArgument` when the count is below one.
    pub fn count_up(&self, request: CountRequest) -> (stream: Result<CountUp, RpcError>)
        ensures
            match stream {
                Ok(s) => request.count >= 1 && s.wf() && s.remaining() == range_inclusive(
                    1,
                    request.count as int,
                ),
                Err(e) => request.count < 1 && e.code == Code::InvalidArgument && e.message@
                    == count_must_be_positive(),
            },
    {
        if request.count < 1 {
            proof {
                reveal_strlit("count must be positive");
            }
            return Err(
                RpcError {
                    code: Code::InvalidArgument,
                    message: String::from_str("count must be positive"),
                },
            );
        }
        Ok(CountUp { next: 1, count: request.count })
    }

    /// The client-streaming `Sum` call over the whole stream: the sum of its
    /// values, each running sum fitting in an `i32`.
    pub fn sum(&self, numbers: &Vec<NumberRequest>) -> (response: SumResponse)
        requires
            running_sums_fit(numbers@),
        ensures
            response.result == total(numbers@),
    {
        let mut sum = Summation::new();
        let mut i: usize = 0;
        while i < numbers.len()
            invariant
                i <= numbers.len(),
                running_sums_fit(numbers@),
                sum.value() == total(numbers@.take(i as int)),
            decreases numbers.len() - i,
        {
            let ghost prefix = numbers@.take(i + 1);
            assert(prefix.drop_last() =~= numbers@.take(i as int));
            assert(i32::MIN <= total(prefix) <= i32::MAX);
            sum.add(NumberRequest { value: numbers[i].value });
            i = i + 1;
        }
        assert(numbers@.take(numbers.len() as int) =~= numbers@);
        sum.finish()
    }

    /// One step of the bidirectional `Chat` call: each message is answered
    /// with `Echo: ` and its text; the end of the client's stream closes the
    /// replies, and a client error is passed on before they close.
    pub fn chat_step(&self, incoming: ChatIncoming) -> (step: ChatStep)
        ensures
            match incoming {
                ChatIncoming::Message(m) => step matches ChatStep::Reply(r) && r.text@
                    == echo_prefix() + m.text@,
                ChatIncoming::End => step is Stop,
                ChatIncoming::Failed => step is ForwardErrorAndStop,
            },
    {
        match incoming {
            ChatIncoming::Message(m) => ChatStep::Reply(ChatMessage { text: echo_reply(m.text.as_str()) }),
            ChatIncoming::End => ChatStep::Stop,
            ChatIncoming::Failed => ChatStep::ForwardErrorAndStop,
        }
    }
}

} // verus!
