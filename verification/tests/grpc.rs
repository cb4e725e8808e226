use protocols::grpc::{
    AddRequest, ChatIncoming, ChatMessage, ChatStep, Code, CountRequest, Demo, NumberRequest,
    Summation,
};

#[test]
fn unary_add() {
    assert_eq!(Demo.add(AddRequest { a: 2, b: 3 }).result, 5);
}

#[test]
fn count_up_streams_one_to_count() {
    let mut stream = Demo.count_up(CountRequest { count: 3 }).ok().unwrap();
    let mut values = Vec::new();
    while let Some(response) = stream.next() {
        values.push(response.value);
    }
    assert_eq!(values, vec![1, 2, 3]);
    assert!(stream.next().is_none());
}

#[test]
fn count_up_of_one() {
    let mut stream = Demo.count_up(CountRequest { count: 1 }).ok().unwrap();
    assert_eq!(stream.next().map(|r| r.value), Some(1));
    assert!(stream.next().is_none());
}

#[test]
fn count_up_refuses_counts_below_one() {
    for count in [0, -1, i32::MIN] {
        match Demo.count_up(CountRequest { count }) {
            Ok(_) => panic!("accepted {count}"),
            Err(e) => {
                assert_eq!(e.code, Code::InvalidArgument);
                assert_eq!(e.message, "count must be positive");
            }
        }
    }
}

#[test]
fn sum_of_stream() {
    let numbers = vec![
        NumberRequest { value: 1 },
        NumberRequest { value: 2 },
        NumberRequest { value: 3 },
    ];
    assert_eq!(Demo.sum(&numbers).result, 6);
    assert_eq!(Demo.sum(&Vec::new()).result, 0);
}

#[test]
fn summation_step_by_step() {
    let mut sum = Summation::new();
    for value in [5, -2, 10] {
        let number = NumberRequest { value };
        assert!(sum.can_add(&number));
        sum.add(number);
    }
    assert_eq!(sum.finish().result, 13);
}

#[test]
fn summation_detects_overflow() {
    let mut sum = Summation::new();
    sum.add(NumberRequest { value: i32::MAX });
    assert!(!sum.can_add(&NumberRequest { value: 1 }));
    assert!(sum.can_add(&NumberRequest { value: -1 }));
}

#[test]
fn chat_echoes_each_message() {
    let step = Demo.chat_step(ChatIncoming::Message(ChatMessage { text: "gRPC".to_string() }));
    match step {
        ChatStep::Reply(reply) => assert_eq!(reply.text, "Echo: gRPC"),
        _ => panic!("expected a reply"),
    }
    assert!(matches!(Demo.chat_step(ChatIncoming::End), ChatStep::Stop));
    assert!(matches!(Demo.chat_step(ChatIncoming::Failed), ChatStep::ForwardErrorAndStop));
}
