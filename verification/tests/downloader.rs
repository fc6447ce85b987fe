use rusty_pipe_cli::downloader::{DownloadProg, DownloadTask, ReadError, Satisfy, IDLE_CHUNK};
use rusty_pipe_cli::request::IncomingTask;

fn request(pos: usize, buff: usize) -> IncomingTask {
    IncomingTask {
        url: String::from("http://host/r"),
        pos,
        buff,
        video_id: String::from("R"),
        file_path: None,
    }
}

fn cold_task(length: usize, file: Option<&str>) -> DownloadTask<u32> {
    DownloadTask::start_new_task(
        String::from("http://host/r"),
        String::from("R"),
        file.map(String::from),
        Some(length),
        None,
    )
}

fn bytes(from: usize, n: usize) -> Vec<u8> {
    (from..from + n).map(|i| (i % 250) as u8 + 1).collect()
}

#[test]
fn new_task_without_cache_is_empty() {
    let task = cold_task(1000, None);
    assert_eq!(task.buff.len(), 1000);
    assert!(task.buff.iter().all(|b| b.is_none()));
    assert!(!task.has_cached);
    assert!(!task.is_complete());
    assert!(task.download_progs.is_empty());
    assert_eq!(task.len, Some(1000));
}

#[test]
fn new_task_with_unknown_length_is_empty_and_complete() {
    let task: DownloadTask<u32> =
        DownloadTask::start_new_task(String::from("u"), String::from("R"), None, None, None);
    assert_eq!(task.buff.len(), 0);
    assert!(task.is_complete());
    assert!(!task.has_cached);
}

#[test]
fn new_task_takes_over_matching_cache() {
    let mut task: DownloadTask<u32> = DownloadTask::start_new_task(
        String::from("u"),
        String::from("R"),
        Some(String::from("/cache/R")),
        Some(4),
        Some(vec![9, 0, 7, 5]),
    );
    assert!(task.is_complete());
    assert!(task.has_cached);
    assert_eq!(task.buff, vec![Some(9), Some(0), Some(7), Some(5)]);
    match task.download_task(&request(1, 10)) {
        Satisfy::Cached(data) => assert_eq!(data, vec![0, 7, 5]),
        _ => panic!("a complete task answers from its buffer"),
    }
    let step = task.complete_tasks();
    assert_eq!(step.cache, None);
    assert_eq!(step.fetch, None);
}

#[test]
fn new_task_ignores_cache_of_other_length() {
    let task: DownloadTask<u32> = DownloadTask::start_new_task(
        String::from("u"),
        String::from("R"),
        Some(String::from("/cache/R")),
        Some(5),
        Some(vec![1, 2, 3]),
    );
    assert!(!task.has_cached);
    assert_eq!(task.buff, vec![None; 5]);
}

#[test]
fn new_task_ignores_cache_when_length_unknown() {
    let task: DownloadTask<u32> = DownloadTask::start_new_task(
        String::from("u"),
        String::from("R"),
        Some(String::from("/cache/R")),
        None,
        Some(vec![1, 2, 3]),
    );
    assert!(!task.has_cached);
    assert_eq!(task.buff, Vec::<Option<u8>>::new());
}

#[test]
fn new_task_takes_over_empty_cache_of_empty_resource() {
    let task: DownloadTask<u32> = DownloadTask::start_new_task(
        String::from("u"),
        String::from("R"),
        Some(String::from("/cache/R")),
        Some(0),
        Some(vec![]),
    );
    assert!(task.has_cached);
    assert!(task.is_complete());
}

#[test]
fn first_read_opens_one_stream() {
    let mut task = cold_task(1000, None);
    let req = request(0, 100);
    match task.download_task(&req) {
        Satisfy::Connect { pos } => assert_eq!(pos, 0),
        _ => panic!("a cold task has to connect"),
    }
    task.attach(DownloadProg::new_download_at(0, 11));
    let (stream, size) = match task.download_task(&req) {
        Satisfy::Fetch { stream, size } => (stream, size),
        _ => panic!("the new stream stands at the offset"),
    };
    assert_eq!((stream, size), (0, 100));
    let mut buff = vec![0u8; 100];
    buff[..60].copy_from_slice(&bytes(0, 60));
    let out = task.store_download(stream, &buff, Some(60));
    assert_eq!(out.data, bytes(0, 60));
    assert!(out.data.len() <= 100);
    assert_eq!(out.cache, None);
    assert_eq!(task.download_progs.len(), 1);
    assert_eq!(task.download_progs[0].current_pos(), 60);
    for i in 0..60 {
        assert_eq!(task.buff[i], Some(out.data[i]));
    }
    assert!(task.buff[60..].iter().all(|b| b.is_none()));
    assert_eq!(task.buff.len(), 1000);
}

#[test]
fn next_read_reuses_the_stream() {
    let mut task = cold_task(1000, None);
    task.attach(DownloadProg::new_download_at(0, 11));
    let first = bytes(0, 100);
    task.store_download(0, &first, Some(100));
    assert_eq!(task.download_progs[0].current_pos(), 100);
    match task.download_task(&request(100, 100)) {
        Satisfy::Fetch { stream, size } => {
            assert_eq!(stream, 0);
            assert_eq!(size, 100);
            assert_eq!(*task.download_progs[stream].response(), 11);
        }
        _ => panic!("the stream at 100 is to be used again"),
    }
    let second = bytes(100, 100);
    let out = task.store_download(0, &second, Some(100));
    assert_eq!(out.data, second);
    assert_eq!(task.download_progs.len(), 1);
    assert_eq!(task.download_progs[0].current_pos(), 200);
}

#[test]
fn read_behind_the_cursor_is_a_cache_hit() {
    let mut task = cold_task(1000, None);
    task.attach(DownloadProg::new_download_at(0, 11));
    task.store_download(0, &bytes(0, 200), Some(200));
    assert_eq!(task.download_progs[0].current_pos(), 200);
    match task.download_task(&request(0, 50)) {
        Satisfy::Cached(data) => assert_eq!(data, bytes(0, 50)),
        _ => panic!("the bytes are in the buffer"),
    }
    assert_eq!(task.download_progs.len(), 1);
    assert_eq!(task.download_progs[0].current_pos(), 200);
}

#[test]
fn other_offset_asks_for_a_new_stream() {
    let mut task = cold_task(1000, None);
    task.attach(DownloadProg::new_download_at(0, 11));
    task.store_download(0, &bytes(0, 100), Some(100));
    match task.download_task(&request(500, 10)) {
        Satisfy::Connect { pos } => assert_eq!(pos, 500),
        _ => panic!("no stream stands at 500"),
    }
    task.attach(DownloadProg::new_download_at(500, 12));
    match task.download_task(&request(500, 10)) {
        Satisfy::Fetch { stream, size } => assert_eq!((stream, size), (1, 10)),
        _ => panic!("the second stream stands at 500"),
    }
}

#[test]
fn cache_hit_stops_at_first_gap_and_at_limit() {
    let mut task = cold_task(10, None);
    task.buff[2] = Some(5);
    task.buff[3] = Some(6);
    task.buff[4] = Some(7);
    task.buff[6] = Some(8);
    match task.download_task(&request(2, 100)) {
        Satisfy::Cached(data) => assert_eq!(data, vec![5, 6, 7]),
        _ => panic!("slot 2 is set"),
    }
    match task.download_task(&request(2, 2)) {
        Satisfy::Cached(data) => assert_eq!(data, vec![5, 6]),
        _ => panic!("slot 2 is set"),
    }
    match task.download_task(&request(6, 0)) {
        Satisfy::Cached(data) => assert_eq!(data, Vec::<u8>::new()),
        _ => panic!("slot 6 is set"),
    }
    match task.download_task(&request(5, 4)) {
        Satisfy::Connect { pos } => assert_eq!(pos, 5),
        _ => panic!("slot 5 is empty"),
    }
    match task.download_task(&request(10, 4)) {
        Satisfy::Connect { pos } => assert_eq!(pos, 10),
        _ => panic!("offset 10 is past the buffer"),
    }
}

#[test]
fn read_hands_out_prefix_and_moves_cursor() {
    let mut prog = DownloadProg::new_download_at(40, ());
    assert_eq!(prog.start_pos(), 40);
    assert_eq!(prog.current_pos(), 40);
    let out = prog.read(&vec![1, 2, 3, 0, 0], Some(3));
    assert_eq!(out, Ok(vec![1, 2, 3]));
    assert_eq!(prog.current_pos(), 43);
    assert_eq!(prog.start_pos(), 40);
}

#[test]
fn read_of_nothing_keeps_cursor() {
    let mut prog = DownloadProg::new_download_at(40, ());
    assert_eq!(prog.read(&vec![0, 0, 0], Some(0)), Ok(vec![]));
    assert_eq!(prog.read(&vec![4, 4, 4], None), Ok(vec![]));
    assert_eq!(prog.read(&vec![], Some(0)), Ok(vec![]));
    assert_eq!(prog.current_pos(), 40);
}

#[test]
fn read_refuses_buffer_of_zeros() {
    let mut prog = DownloadProg::new_download_at(40, ());
    assert_eq!(prog.read(&vec![0, 0, 0], Some(2)), Err(ReadError::AllZeros));
    assert_eq!(prog.current_pos(), 40);
    assert_eq!(prog.read(&vec![0, 0, 1], Some(2)), Ok(vec![0, 0]));
    assert_eq!(prog.current_pos(), 42);
}

#[test]
fn store_grows_the_buffer() {
    let mut task = cold_task(4, None);
    task.attach(DownloadProg::new_download_at(6, 1));
    let out = task.store_download(0, &vec![7, 8], Some(2));
    assert_eq!(out.data, vec![7, 8]);
    assert_eq!(
        task.buff,
        vec![None, None, None, None, None, None, Some(7), Some(8)]
    );
    assert_eq!(task.download_progs[0].current_pos(), 8);
}

#[test]
fn store_drops_stream_that_ran_into_known_bytes() {
    let mut task = cold_task(6, None);
    task.buff[3] = Some(33);
    task.attach(DownloadProg::new_download_at(2, 1));
    task.attach(DownloadProg::new_download_at(5, 2));
    let out = task.store_download(0, &vec![10, 11, 12], Some(3));
    assert_eq!(out.data, vec![10, 11, 12]);
    assert_eq!(
        task.buff,
        vec![None, None, Some(10), Some(33), Some(12), None]
    );
    assert_eq!(task.download_progs.len(), 1);
    assert_eq!(*task.download_progs[0].response(), 2);
    assert_eq!(task.download_progs[0].current_pos(), 5);
}

#[test]
fn store_drops_stream_that_ended_or_failed() {
    let mut task = cold_task(6, None);
    task.attach(DownloadProg::new_download_at(0, 1));
    task.attach(DownloadProg::new_download_at(2, 2));
    task.attach(DownloadProg::new_download_at(4, 3));
    let out = task.store_download(1, &vec![0, 0], Some(0));
    assert_eq!(out.data, Vec::<u8>::new());
    assert_eq!(task.download_progs.len(), 2);
    assert_eq!(*task.download_progs[1].response(), 3);
    let out = task.store_download(0, &vec![5, 5], None);
    assert_eq!(out.data, Vec::<u8>::new());
    assert_eq!(task.download_progs.len(), 1);
    let out = task.store_download(0, &vec![0, 0], Some(2));
    assert_eq!(out.data, Vec::<u8>::new());
    assert!(task.download_progs.is_empty());
    assert_eq!(task.buff, vec![None; 6]);
}

#[test]
fn cache_is_handed_out_exactly_once() {
    let mut task = cold_task(4, Some("/cache/R"));
    task.attach(DownloadProg::new_download_at(0, 1));
    let out = task.store_download(0, &vec![1, 2], Some(2));
    assert_eq!(out.cache, None);
    assert!(!task.has_cached);
    let out = task.store_download(0, &vec![3, 4], Some(2));
    assert_eq!(out.cache, Some(vec![1, 2, 3, 4]));
    assert!(task.has_cached);
    assert!(task.is_complete());
    assert_eq!(task.cache_if_complete(), None);
    let step = task.complete_tasks();
    assert_eq!(step.cache, None);
    assert_eq!(step.fetch, Some(IDLE_CHUNK));
    let out = task.store_download(0, &vec![0; 8], Some(0));
    assert_eq!(out.cache, None);
    assert!(task.has_cached);
}

#[test]
fn no_cache_without_a_cache_file() {
    let mut task = cold_task(2, None);
    task.attach(DownloadProg::new_download_at(0, 1));
    let out = task.store_download(0, &vec![1, 2], Some(2));
    assert_eq!(out.cache, None);
    assert!(task.is_complete());
    assert!(!task.has_cached);
    assert_eq!(task.cache_if_complete(), None);
    assert!(!task.has_cached);
}

#[test]
fn incomplete_task_is_not_cached() {
    let mut task = cold_task(4, Some("/cache/R"));
    task.buff[1] = Some(8);
    task.buff[3] = Some(9);
    assert_eq!(task.cache_if_complete(), None);
    assert!(!task.has_cached);
    task.buff[0] = Some(7);
    task.buff[2] = Some(6);
    assert_eq!(task.cache_if_complete(), Some(vec![7, 8, 6, 9]));
    assert!(task.has_cached);
}

#[test]
fn idle_step_checks_completion_first() {
    let mut task = cold_task(2, Some("/cache/R"));
    task.buff[0] = Some(1);
    task.buff[1] = Some(2);
    let step = task.complete_tasks();
    assert_eq!(step.cache, Some(vec![1, 2]));
    assert_eq!(step.fetch, None);
    assert!(task.has_cached);
    let step = task.complete_tasks();
    assert_eq!(step.cache, None);
}

#[test]
fn idle_chunk_is_2048() {
    assert_eq!(IDLE_CHUNK, 2048);
    let mut task = cold_task(5000, None);
    task.attach(DownloadProg::new_download_at(0, 1));
    assert_eq!(task.complete_tasks().fetch, Some(2048));
}

#[test]
fn set_slot_keeps_its_byte() {
    let mut task = cold_task(3, None);
    task.buff[1] = Some(50);
    task.attach(DownloadProg::new_download_at(0, 1));
    task.store_download(0, &vec![1, 2, 3], Some(3));
    assert_eq!(task.buff, vec![Some(1), Some(50), Some(3)]);
}
