use image::{DynamicImage, ImageFormat, Rgb, RgbImage};
use pixelconvert::batch::{
    concurrency_limit, display_label, BatchJob, BatchProgress, Semaphore, DEFAULT_CONCURRENCY,
};
use pixelconvert::codec::RgbaFrame;
use pixelconvert::converter::{ConversionOptions, Encoding, ImageConverter, SupportedFormat};
use pixelconvert::error::{ConversionError, ErrorStage, PermitSystemFault};
use pixelconvert::model::JobState;
use pixelconvert::scheduler::{terminal_event, BatchAction, BatchScheduler};
use std::collections::VecDeque;
use std::io::Cursor;
use std::path::PathBuf;

fn png_bytes(width: u32, height: u32) -> Vec<u8> {
    let image = DynamicImage::ImageRgb8(RgbImage::from_fn(width, height, |x, y| {
        Rgb([(x * 9 % 256) as u8, (y * 5 % 256) as u8, ((x + 2 * y) % 256) as u8])
    }));
    let mut bytes = Vec::new();
    image.write_to(&mut Cursor::new(&mut bytes), ImageFormat::Png).unwrap();
    bytes
}

fn job(input: &str, format: SupportedFormat, quality: u8) -> BatchJob {
    let input_path = PathBuf::from(input);
    BatchJob {
        output_path: input_path.with_extension(format.extension()),
        input_path,
        options: ConversionOptions { quality, format },
    }
}

fn run_webp(frame: &RgbaFrame, quality: u8) -> Result<Vec<u8>, String> {
    let encoder = webp::Encoder::from_rgba(&frame.data, frame.width, frame.height);
    match encoder.encode_simple(false, quality as f32) {
        Ok(memory) => Ok(memory.to_vec()),
        Err(error) => Err(format!("{:?}", error)),
    }
}

/// One conversion as a worker does it, with the file system replaced by
/// what reading the input gave.
fn convert(job: &BatchJob, source: &Result<Vec<u8>, String>) -> Result<(), ConversionError> {
    let data = match source {
        Ok(data) => data,
        Err(reason) => return Err(ImageConverter::unreadable(reason.clone())),
    };
    let converter = ImageConverter::new(job.options);
    let bytes = match converter.convert(&job.input_path, data)? {
        Encoding::Ready { bytes } => bytes,
        Encoding::WebP { frame, quality } => converter.encoded(run_webp(&frame, quality))?,
        Encoding::Avif { .. } => panic!("no test converts to AVIF in a batch"),
    };
    assert!(!bytes.is_empty());
    Ok(())
}

struct Run {
    events: Vec<BatchProgress>,
    most_running: usize,
}

/// Drives a batch to its end. The jobs that run are ended oldest first,
/// and only when the scheduler says to wait.
fn drive(jobs: Vec<BatchJob>, limit: usize, sources: &[Result<Vec<u8>, String>]) -> Run {
    let mut scheduler = BatchScheduler::new(jobs, limit);
    let mut running: VecDeque<usize> = VecDeque::new();
    let mut events = Vec::new();
    let mut most_running = 0;
    loop {
        match scheduler.next_action() {
            BatchAction::Start { index, event } => {
                events.push(event);
                running.push_back(index);
                assert_eq!(scheduler.running(), running.len());
                most_running = most_running.max(running.len());
            }
            BatchAction::Wait => {
                let index = running.pop_front().expect("waiting with nothing running");
                let outcome = convert(scheduler.job(index).unwrap(), &sources[index]);
                events.push(scheduler.job_finished(index, outcome).unwrap());
                assert_eq!(scheduler.running(), running.len());
            }
            BatchAction::Finish { event } => {
                events.push(event);
                break;
            }
            BatchAction::Done => panic!("done before the summary"),
        }
    }
    assert!(running.is_empty());
    assert!(scheduler.is_finished());
    assert_eq!(scheduler.next_action(), BatchAction::Done);
    Run { events, most_running }
}

fn count(events: &[BatchProgress], pick: fn(&BatchProgress) -> bool) -> usize {
    events.iter().filter(|event| pick(event)).count()
}

fn is_processing(event: &BatchProgress) -> bool {
    matches!(event, BatchProgress::Processing { .. })
}

fn is_completed(event: &BatchProgress) -> bool {
    matches!(event, BatchProgress::Completed { .. })
}

fn is_failed(event: &BatchProgress) -> bool {
    matches!(event, BatchProgress::Failed { .. })
}

fn is_finished(event: &BatchProgress) -> bool {
    matches!(event, BatchProgress::Finished { .. })
}

#[test]
fn ten_jobs_two_missing_webp_at_80_limit_4() {
    let mut jobs = Vec::new();
    let mut sources = Vec::new();
    for i in 0..10 {
        jobs.push(job(&format!("photos/image{}.png", i), SupportedFormat::WebP, 80));
        if i == 3 || i == 7 {
            sources.push(Err("No such file or directory (os error 2)".to_string()));
        } else {
            sources.push(Ok(png_bytes(8 + i as u32, 6)));
        }
    }
    let run = drive(jobs, 4, &sources);
    assert_eq!(count(&run.events, is_completed), 8);
    assert_eq!(count(&run.events, is_failed), 2);
    assert_eq!(count(&run.events, is_finished), 1);
    assert_eq!(run.events.last(), Some(&BatchProgress::Finished { successful: 8, failed: 2 }));
    assert_eq!(run.most_running, 4);
    for i in 0..10 {
        let file = format!("image{}.png", i);
        let processing = BatchProgress::Processing { file: file.clone() };
        assert_eq!(run.events.iter().filter(|event| **event == processing).count(), 1);
        let started = run.events.iter().position(|event| *event == processing).unwrap();
        let ended = run
            .events
            .iter()
            .position(|event| match event {
                BatchProgress::Completed { file: name } => *name == file,
                BatchProgress::Failed { file: name, .. } => *name == file,
                _ => false,
            })
            .unwrap();
        assert!(started < ended);
        assert!(ended < run.events.len() - 1);
    }
    assert!(run.events.contains(&BatchProgress::Failed {
        file: "image3.png".to_string(),
        error: "Failed to open image: No such file or directory (os error 2)".to_string(),
    }));
    assert!(run.events.contains(&BatchProgress::Failed {
        file: "image7.png".to_string(),
        error: "Failed to open image: No such file or directory (os error 2)".to_string(),
    }));
}

#[test]
fn an_empty_batch_only_finishes() {
    let mut scheduler = BatchScheduler::new(Vec::new(), 4);
    assert_eq!(scheduler.total(), 0);
    assert_eq!(
        scheduler.next_action(),
        BatchAction::Finish { event: BatchProgress::Finished { successful: 0, failed: 0 } }
    );
    assert!(scheduler.is_finished());
    assert_eq!(scheduler.next_action(), BatchAction::Done);
    assert_eq!(scheduler.next_action(), BatchAction::Done);
}

#[test]
fn every_job_ends_once_and_the_summary_counts_them() {
    for total in [1usize, 2, 5, 9] {
        for limit in [1usize, 2, 3, 16] {
            let mut jobs = Vec::new();
            let mut sources = Vec::new();
            for i in 0..total {
                jobs.push(job(&format!("in/{}.png", i), SupportedFormat::Bmp, 50));
                if i % 3 == 1 {
                    sources.push(Ok(b"garbage".to_vec()));
                } else {
                    sources.push(Ok(png_bytes(4, 4)));
                }
            }
            let failing = (0..total).filter(|i| i % 3 == 1).count();
            let run = drive(jobs, limit, &sources);
            assert_eq!(run.events.len(), 2 * total + 1);
            assert_eq!(count(&run.events, is_processing), total);
            assert_eq!(count(&run.events, is_completed) + count(&run.events, is_failed), total);
            assert_eq!(count(&run.events, is_failed), failing);
            assert_eq!(count(&run.events, is_finished), 1);
            assert_eq!(
                run.events.last(),
                Some(&BatchProgress::Finished { successful: total - failing, failed: failing })
            );
            assert_eq!(run.most_running, limit.min(total));
        }
    }
}

#[test]
fn a_decode_failure_is_described_and_stops_nothing() {
    let jobs = vec![
        job("a.png", SupportedFormat::Png, 85),
        job("corrupt.png", SupportedFormat::Png, 85),
        job("c.png", SupportedFormat::Png, 85),
    ];
    let sources = [Ok(png_bytes(4, 4)), Ok(vec![0u8; 32]), Ok(png_bytes(5, 5))];
    let run = drive(jobs, 2, &sources);
    let failures: Vec<&BatchProgress> = run.events.iter().filter(|event| is_failed(event)).collect();
    assert_eq!(failures.len(), 1);
    match failures[0] {
        BatchProgress::Failed { file, error } => {
            assert_eq!(file, "corrupt.png");
            assert!(error.starts_with("Failed to open image: "));
            assert!(error.len() > "Failed to open image: ".len());
        }
        _ => unreachable!(),
    }
    assert!(run.events.contains(&BatchProgress::Completed { file: "a.png".to_string() }));
    assert!(run.events.contains(&BatchProgress::Completed { file: "c.png".to_string() }));
    assert_eq!(run.events.last(), Some(&BatchProgress::Finished { successful: 2, failed: 1 }));
}

#[test]
fn jobs_start_in_order_while_permits_last() {
    let jobs = vec![
        job("one.png", SupportedFormat::Png, 85),
        job("two.png", SupportedFormat::Png, 85),
        job("three.png", SupportedFormat::Png, 85),
    ];
    let mut scheduler = BatchScheduler::new(jobs, 2);
    assert_eq!(scheduler.limit(), 2);
    assert_eq!(scheduler.total(), 3);
    assert_eq!(scheduler.state(0), Some(JobState::Pending));
    assert_eq!(
        scheduler.next_action(),
        BatchAction::Start { index: 0, event: BatchProgress::Processing { file: "one.png".to_string() } }
    );
    assert_eq!(
        scheduler.next_action(),
        BatchAction::Start { index: 1, event: BatchProgress::Processing { file: "two.png".to_string() } }
    );
    assert_eq!(scheduler.running(), 2);
    assert_eq!(scheduler.next_action(), BatchAction::Wait);
    assert_eq!(scheduler.next_action(), BatchAction::Wait);
    assert_eq!(scheduler.state(0), Some(JobState::Running));
    assert_eq!(scheduler.state(2), Some(JobState::Pending));
    assert_eq!(scheduler.state(3), None);

    assert_eq!(scheduler.job_finished(1, Ok(())), Ok(BatchProgress::Completed { file: "two.png".to_string() }));
    assert_eq!(scheduler.state(1), Some(JobState::Succeeded));
    assert_eq!(scheduler.running(), 1);
    assert_eq!(
        scheduler.next_action(),
        BatchAction::Start { index: 2, event: BatchProgress::Processing { file: "three.png".to_string() } }
    );
    assert_eq!(scheduler.next_action(), BatchAction::Wait);

    let failure = ConversionError::write("Failed to save PNG", "disk full".to_string());
    assert_eq!(
        scheduler.job_finished(0, Err(failure)),
        Ok(BatchProgress::Failed { file: "one.png".to_string(), error: "Failed to save PNG: disk full".to_string() })
    );
    assert_eq!(scheduler.state(0), Some(JobState::Failed));
    assert_eq!(scheduler.next_action(), BatchAction::Wait);
    assert!(!scheduler.is_finished());
    assert_eq!(scheduler.job_finished(2, Ok(())), Ok(BatchProgress::Completed { file: "three.png".to_string() }));
    assert_eq!(
        scheduler.next_action(),
        BatchAction::Finish { event: BatchProgress::Finished { successful: 2, failed: 1 } }
    );
    assert_eq!(scheduler.next_action(), BatchAction::Done);
}

#[test]
fn a_report_for_a_job_that_is_not_running_is_a_fault() {
    let jobs = vec![job("one.png", SupportedFormat::Png, 85), job("two.png", SupportedFormat::Png, 85)];
    let mut scheduler = BatchScheduler::new(jobs, 1);
    assert_eq!(scheduler.job_finished(0, Ok(())), Err(PermitSystemFault {}));
    assert_eq!(scheduler.job_finished(7, Ok(())), Err(PermitSystemFault {}));
    assert!(matches!(scheduler.next_action(), BatchAction::Start { index: 0, .. }));
    assert_eq!(scheduler.job_finished(1, Ok(())), Err(PermitSystemFault {}));
    assert_eq!(scheduler.running(), 1);
    assert!(scheduler.job_finished(0, Ok(())).is_ok());
    assert_eq!(scheduler.job_finished(0, Ok(())), Err(PermitSystemFault {}));
    assert_eq!(scheduler.running(), 0);
    assert!(matches!(scheduler.next_action(), BatchAction::Start { index: 1, .. }));
    assert!(scheduler.job_finished(1, Ok(())).is_ok());
    assert_eq!(
        scheduler.next_action(),
        BatchAction::Finish { event: BatchProgress::Finished { successful: 2, failed: 0 } }
    );
    assert_eq!(scheduler.job_finished(1, Ok(())), Err(PermitSystemFault {}));
}

#[test]
fn a_batch_without_permits_only_waits() {
    let mut scheduler = BatchScheduler::new(vec![job("one.png", SupportedFormat::Png, 85)], 0);
    assert_eq!(scheduler.next_action(), BatchAction::Wait);
    assert_eq!(scheduler.running(), 0);
    assert!(!scheduler.is_finished());
}

#[test]
fn job_gives_the_job_at_an_index() {
    let jobs = vec![job("one.png", SupportedFormat::Png, 85), job("two.jpg", SupportedFormat::Gif, 10)];
    let scheduler = BatchScheduler::new(jobs, 2);
    let second = scheduler.job(1).unwrap();
    assert_eq!(second.input_path, PathBuf::from("two.jpg"));
    assert_eq!(second.output_path, PathBuf::from("two.gif"));
    assert_eq!(second.options, ConversionOptions { quality: 10, format: SupportedFormat::Gif });
    assert!(scheduler.job(2).is_none());
}

#[test]
fn a_job_is_reported_under_its_file_name() {
    assert_eq!(job("/home/user/pictures/cat.jpeg", SupportedFormat::Png, 85).file_name(), "cat.jpeg");
    assert_eq!(job("dog.png", SupportedFormat::Png, 85).file_name(), "dog.png");
    assert_eq!(job("/home/user/..", SupportedFormat::Png, 85).file_name(), "unknown");
    assert_eq!(job("", SupportedFormat::Png, 85).file_name(), "unknown");
}

#[test]
fn display_label_falls_back_to_unknown() {
    assert_eq!(display_label(Some("cat.png".to_string())), "cat.png");
    assert_eq!(display_label(None), "unknown");
}

#[test]
fn terminal_event_reports_how_a_job_ended() {
    assert_eq!(
        terminal_event("cat.png".to_string(), Ok(())),
        BatchProgress::Completed { file: "cat.png".to_string() }
    );
    let error = ConversionError::encode("Failed to save ICO", "too large".to_string());
    assert_eq!(error.stage, ErrorStage::Encode);
    assert_eq!(
        terminal_event("cat.png".to_string(), Err(error)),
        BatchProgress::Failed { file: "cat.png".to_string(), error: "Failed to save ICO: too large".to_string() }
    );
}

#[test]
fn the_concurrency_limit_is_the_processor_count_or_four() {
    assert_eq!(DEFAULT_CONCURRENCY, 4);
    assert_eq!(concurrency_limit(Some(12)), 12);
    assert_eq!(concurrency_limit(Some(1)), 1);
    assert_eq!(concurrency_limit(None), 4);
    assert_eq!(concurrency_limit(Some(0)), 4);
}

#[test]
fn a_semaphore_grants_as_many_permits_as_it_has() {
    let mut semaphore = Semaphore::new(2);
    assert_eq!(semaphore.capacity(), 2);
    assert_eq!(semaphore.available_permits(), 2);
    assert!(semaphore.acquire());
    assert!(semaphore.acquire());
    assert!(!semaphore.acquire());
    assert_eq!(semaphore.permits_in_use(), 2);
    assert_eq!(semaphore.available_permits(), 0);
    assert_eq!(semaphore.release(), Ok(()));
    assert_eq!(semaphore.available_permits(), 1);
    assert!(semaphore.acquire());
    assert_eq!(semaphore.release(), Ok(()));
    assert_eq!(semaphore.release(), Ok(()));
    assert_eq!(semaphore.release(), Err(PermitSystemFault {}));
    assert_eq!(semaphore.permits_in_use(), 0);
    assert_eq!(semaphore.available_permits(), 2);
}

#[test]
fn a_semaphore_without_permits_grants_none() {
    let mut semaphore = Semaphore::new(0);
    assert!(!semaphore.acquire());
    assert_eq!(semaphore.release(), Err(PermitSystemFault {}));
}
