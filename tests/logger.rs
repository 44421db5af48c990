use rustcom::logger::{Entry, LogQueue, LOG_CAPACITY};

fn entry(i: usize) -> Entry {
    Entry {
        timestamp: "12:00:00".to_string(),
        level: "INFO".to_string(),
        target: "rustcom".to_string(),
        args: format!("message {i}"),
    }
}

#[test]
fn pushing_1200_entries_keeps_700() {
    let mut q = LogQueue::new();
    for i in 0..1200 {
        q.push(entry(i));
    }
    assert_eq!(q.len(), 700);
    let all = q.take_all();
    assert_eq!(all.len(), 700);
    assert_eq!(all[0].args, "message 500");
    assert_eq!(all[699].args, "message 1199");
    assert_eq!(q.len(), 0);
}

#[test]
fn queue_holds_up_to_capacity_then_drops_the_oldest_half() {
    let mut q = LogQueue::new();
    for i in 0..LOG_CAPACITY {
        q.push(entry(i));
    }
    assert_eq!(q.len(), 1000);
    q.push(entry(1000));
    assert_eq!(q.len(), 501);
    let all = q.take_all();
    assert_eq!(all[0].args, "message 500");
    assert_eq!(all[500].args, "message 1000");
}

#[test]
fn empty_queue_hands_out_nothing() {
    let mut q = LogQueue::new();
    assert_eq!(q.len(), 0);
    assert!(q.take_all().is_empty());
}

#[test]
fn entry_formats_as_one_line() {
    let mut job = "before\n".to_string();
    Entry {
        timestamp: "09:15:02".to_string(),
        level: "WARN".to_string(),
        target: "serial".to_string(),
        args: "port busy".to_string(),
    }
    .format(&mut job);
    assert_eq!(job, "before\n[09:15:02] WARN port busy\n");
}

