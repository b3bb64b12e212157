use polymorphic_packer::error::PackError;
use polymorphic_packer::job::{
    percent_for, request_for, JobStage, PackingJob, Progress, Request, Step, WorkerInput,
};
use polymorphic_packer::keys::KeyMaterial;
use polymorphic_packer::stub::{generate_polymorphic_stub, stub_manifest};
use polymorphic_packer::transform::{compress_data, encrypt_data, recover};

fn minimal_elf() -> Vec<u8> {
    let mut bytes = vec![0x7f, b'E', b'L', b'F', 2, 1, 1, 0, 0, 0, 0, 0, 0, 0, 0, 0];
    bytes.extend_from_slice(&2u16.to_le_bytes());
    bytes.extend_from_slice(&0x3eu16.to_le_bytes());
    bytes.extend_from_slice(&1u32.to_le_bytes());
    bytes.extend_from_slice(&0u64.to_le_bytes());
    bytes.extend_from_slice(&0u64.to_le_bytes());
    bytes.extend_from_slice(&0u64.to_le_bytes());
    bytes.extend_from_slice(&0u32.to_le_bytes());
    bytes.extend_from_slice(&64u16.to_le_bytes());
    bytes.extend_from_slice(&56u16.to_le_bytes());
    bytes.extend_from_slice(&0u16.to_le_bytes());
    bytes.extend_from_slice(&64u16.to_le_bytes());
    bytes.extend_from_slice(&0u16.to_le_bytes());
    bytes.extend_from_slice(&0u16.to_le_bytes());
    bytes
}

fn new_job() -> PackingJob {
    PackingJob::new("input.bin".to_string(), "packed.bin".to_string())
}

fn step(job: PackingJob, input: WorkerInput) -> (PackingJob, Step) {
    let (job, step) = job.advance(input);
    (job, step.expect("the job takes this input"))
}

/// Runs a job as a worker would, with `payload` as what the input path
/// holds and `build` as what the build comes to.
fn run(payload: Option<Vec<u8>>, build: Result<(), String>) -> (PackingJob, Vec<(String, u16)>, Vec<Request>) {
    let mut job = new_job();
    let mut input = WorkerInput::Proceed;
    let mut events = Vec::new();
    let mut requests = Vec::new();
    loop {
        let (next, step) = step(job, input);
        job = next;
        events.push(step.event.into_pair());
        requests.push(step.request);
        input = match step.request {
            Request::ReadInput => match &payload {
                Some(bytes) => WorkerInput::Payload(bytes.clone()),
                None => WorkerInput::Failed("No such file or directory (os error 2)".to_string()),
            },
            Request::Continue => WorkerInput::Proceed,
            Request::Build => match &build {
                Ok(()) => WorkerInput::Proceed,
                Err(text) => WorkerInput::Failed(text.clone()),
            },
            Request::Stop => break,
        };
        assert!(events.len() <= 7);
    }
    (job, events, requests)
}

fn percents(events: &[(String, u16)]) -> Vec<u16> {
    events.iter().map(|(_, percent)| *percent).collect()
}

fn messages(events: &[(String, u16)]) -> Vec<&str> {
    events.iter().map(|(message, _)| message.as_str()).collect()
}

#[test]
fn a_new_job_is_idle() {
    let job = new_job();
    assert_eq!(job.current_stage(), JobStage::Idle);
    assert_eq!(job.input_path, "input.bin");
    assert_eq!(job.output_path, "packed.bin");
    assert!(job.payload.is_empty());
    assert!(job.stub().is_none());
}

#[test]
fn a_blob_ends_the_run_as_unsupported() {
    let blob: Vec<u8> = (0..50u8).map(|i| i.wrapping_mul(37).wrapping_add(11)).collect();
    let (job, events, requests) = run(Some(blob), Ok(()));
    assert_eq!(job.current_stage(), JobStage::Unsupported);
    assert_eq!(
        messages(&events),
        vec![
            "Reading file: input.bin",
            "Checking executable format...",
            "❌ Unsupported executable format",
        ]
    );
    assert_eq!(percents(&events), vec![10, 15, 100]);
    assert_eq!(requests, vec![Request::ReadInput, Request::Continue, Request::Stop]);
    assert!(!requests.contains(&Request::Build));
    assert!(job.stub().is_none());
}

#[test]
fn a_well_formed_executable_goes_through_every_stage() {
    let (job, events, requests) = run(Some(minimal_elf()), Ok(()));
    assert_eq!(job.current_stage(), JobStage::Done);
    assert_eq!(
        messages(&events),
        vec![
            "Reading file: input.bin",
            "Checking executable format...",
            "Compressing payload...",
            "Generating encryption keys...",
            "Encrypting payload...",
            "Building stub executable...",
            "✨ Packing completed successfully!",
        ]
    );
    assert_eq!(percents(&events), vec![10, 15, 20, 30, 40, 50, 100]);
    assert_eq!(
        requests,
        vec![
            Request::ReadInput,
            Request::Continue,
            Request::Continue,
            Request::Continue,
            Request::Continue,
            Request::Build,
            Request::Stop,
        ]
    );
}

#[test]
fn a_failed_build_ends_the_run_with_its_diagnosis() {
    let diagnosis = "error: could not compile `polymorphic_stub` due to 3 previous errors";
    let (job, events, requests) = run(Some(minimal_elf()), Err(diagnosis.to_string()));
    assert_eq!(job.current_stage(), JobStage::Failed);
    let (message, percent) = events.last().unwrap();
    assert_eq!(*percent, 100);
    assert!(message.contains(diagnosis));
    assert_eq!(message, &format!("❌ Error: {}", diagnosis));
    assert_eq!(percents(&events), vec![10, 15, 20, 30, 40, 50, 100]);
    assert_eq!(requests.last(), Some(&Request::Stop));
}

#[test]
fn an_unreadable_input_ends_the_run_before_classification() {
    let (job, events, requests) = run(None, Ok(()));
    assert_eq!(job.current_stage(), JobStage::Failed);
    assert_eq!(
        messages(&events),
        vec!["Reading file: input.bin", "❌ Error: No such file or directory (os error 2)"]
    );
    assert_eq!(percents(&events), vec![10, 100]);
    assert_eq!(requests, vec![Request::ReadInput, Request::Stop]);
}

#[test]
fn percents_never_fall_and_end_at_one_hundred() {
    let runs = vec![
        run(Some(minimal_elf()), Ok(())),
        run(Some(minimal_elf()), Err("no".to_string())),
        run(Some(vec![1, 2, 3]), Ok(())),
        run(None, Ok(())),
    ];
    for (_, events, _) in runs {
        let percents = percents(&events);
        assert!(percents.windows(2).all(|pair| pair[0] <= pair[1]));
        assert_eq!(*percents.last().unwrap(), 100);
        assert_eq!(percents.iter().filter(|p| **p == 100).count(), 1);
    }
}

#[test]
fn the_stub_carries_the_compressed_and_encrypted_payload() {
    let payload = minimal_elf();
    let mut job = new_job();
    let mut input = WorkerInput::Proceed;
    loop {
        let (next, step) = step(job, input);
        job = next;
        input = match step.request {
            Request::ReadInput => WorkerInput::Payload(payload.clone()),
            Request::Continue => WorkerInput::Proceed,
            Request::Build => break,
            Request::Stop => panic!("the run ended before the build"),
        };
    }
    assert_eq!(job.current_stage(), JobStage::Building);
    assert_eq!(job.payload, payload);
    let (encrypted, keys) = match &job.progress {
        Progress::Building { encrypted, keys } => {
            (encrypted.clone(), KeyMaterial { key: keys.key, iv: keys.iv })
        }
        _ => panic!("the job is not building"),
    };
    let compressed = compress_data(&payload).unwrap();
    assert_eq!(encrypted, encrypt_data(&compressed, &keys.key, &keys.iv));
    assert_eq!(recover(&encrypted, &keys), Ok(payload.clone()));
    assert_ne!(encrypted, payload);
    assert_ne!(encrypted.len(), payload.len());
    let stub = job.stub().unwrap();
    assert_eq!(stub.program, generate_polymorphic_stub(&encrypted, &keys.key, &keys.iv));
    assert_eq!(stub.manifest, stub_manifest());
}

#[test]
fn the_stub_is_there_only_while_the_build_is_awaited() {
    let mut job = new_job();
    let mut input = WorkerInput::Proceed;
    loop {
        assert_eq!(job.stub().is_some(), job.current_stage() == JobStage::Building);
        let (next, step) = step(job, input);
        job = next;
        input = match step.request {
            Request::ReadInput => WorkerInput::Payload(minimal_elf()),
            Request::Stop => break,
            _ => WorkerInput::Proceed,
        };
    }
    assert!(job.stub().is_none());
}

#[test]
fn key_material_is_fresh_in_every_run() {
    let mut seen: Vec<[u8; 32]> = Vec::new();
    for _ in 0..20 {
        let mut job = new_job();
        let mut input = WorkerInput::Proceed;
        loop {
            let (next, step) = step(job, input);
            job = next;
            input = match step.request {
                Request::ReadInput => WorkerInput::Payload(minimal_elf()),
                Request::Continue => WorkerInput::Proceed,
                _ => break,
            };
        }
        match &job.progress {
            Progress::Building { keys, .. } => {
                assert!(!seen.contains(&keys.key));
                seen.push(keys.key);
            }
            _ => panic!("the job is not building"),
        }
    }
}

#[test]
fn a_job_takes_no_input_that_does_not_fit_its_stage() {
    let (job, none) = new_job().advance(WorkerInput::Payload(vec![1]));
    assert!(none.is_none());
    assert_eq!(job.current_stage(), JobStage::Idle);
    let (job, none) = job.advance(WorkerInput::Failed("early".to_string()));
    assert!(none.is_none());
    assert_eq!(job.current_stage(), JobStage::Idle);
    let (job, _) = step(job, WorkerInput::Proceed);
    assert_eq!(job.current_stage(), JobStage::Reading);
    let (job, none) = job.advance(WorkerInput::Proceed);
    assert!(none.is_none());
    assert_eq!(job.current_stage(), JobStage::Reading);
    let (job, _) = step(job, WorkerInput::Payload(minimal_elf()));
    let (job, none) = job.advance(WorkerInput::Failed("odd".to_string()));
    assert!(none.is_none());
    assert_eq!(job.current_stage(), JobStage::Classifying);
    assert_eq!(job.payload, minimal_elf());
}

#[test]
fn a_run_that_is_over_gives_no_further_event() {
    let (job, _, _) = run(Some(minimal_elf()), Ok(()));
    let (job, none) = job.advance(WorkerInput::Proceed);
    assert!(none.is_none());
    let (job, none) = job.advance(WorkerInput::Failed("late".to_string()));
    assert!(none.is_none());
    assert_eq!(job.current_stage(), JobStage::Done);
    let (job, _, _) = run(Some(vec![0u8; 50]), Ok(()));
    let (job, none) = job.advance(WorkerInput::Proceed);
    assert!(none.is_none());
    assert_eq!(job.current_stage(), JobStage::Unsupported);
    let (job, _, _) = run(None, Ok(()));
    let (job, none) = job.advance(WorkerInput::Payload(minimal_elf()));
    assert!(none.is_none());
    assert_eq!(job.current_stage(), JobStage::Failed);
}

#[test]
fn a_failed_compression_ends_the_run() {
    let mut job = new_job();
    job.progress = Progress::Compressing;
    let (job, step) = job.after_compression(Err(PackError::Compression));
    let step = step.unwrap();
    assert_eq!(job.current_stage(), JobStage::Failed);
    assert_eq!(step.event.message, "❌ Error: compression failed");
    assert_eq!(step.event.percent, 100);
    assert_eq!(step.request, Request::Stop);
}

#[test]
fn a_compressed_payload_is_kept_for_the_encryption() {
    let mut job = new_job();
    job.progress = Progress::Compressing;
    let (job, step) = job.after_compression(Ok(vec![1, 2, 3]));
    let step = step.unwrap();
    assert_eq!(job.current_stage(), JobStage::KeyGen);
    assert_eq!(step.event.message, "Generating encryption keys...");
    assert_eq!(step.event.percent, 30);
    assert_eq!(step.request, Request::Continue);
    match &job.progress {
        Progress::KeyGen { compressed } => assert_eq!(compressed, &vec![1, 2, 3]),
        _ => panic!("the job is not waiting for key material"),
    }
}

#[test]
fn missing_entropy_ends_the_run() {
    let mut job = new_job();
    job.progress = Progress::KeyGen { compressed: vec![1, 2, 3] };
    let (job, step) = job.after_key_generation(Err(PackError::Entropy));
    let step = step.unwrap();
    assert_eq!(job.current_stage(), JobStage::Failed);
    assert_eq!(step.event.message, "❌ Error: no secure randomness available");
    assert_eq!(step.event.percent, 100);
    assert_eq!(step.request, Request::Stop);
}

#[test]
fn key_material_is_kept_for_the_encryption() {
    let mut job = new_job();
    job.progress = Progress::KeyGen { compressed: vec![1, 2, 3] };
    let (job, step) = job.after_key_generation(Ok(KeyMaterial { key: [5; 32], iv: [6; 16] }));
    let step = step.unwrap();
    assert_eq!(job.current_stage(), JobStage::Encrypting);
    assert_eq!(step.event.message, "Encrypting payload...");
    assert_eq!(step.event.percent, 40);
    match &job.progress {
        Progress::Encrypting { compressed, keys } => {
            assert_eq!(compressed, &vec![1, 2, 3]);
            assert_eq!(keys.key, [5; 32]);
            assert_eq!(keys.iv, [6; 16]);
        }
        _ => panic!("the job is not encrypting"),
    }
    let (job, step) = step_from(job);
    assert_eq!(step.event.percent, 50);
    match &job.progress {
        Progress::Building { encrypted, keys } => {
            assert_eq!(encrypted, &encrypt_data(&[1, 2, 3], &[5; 32], &[6; 16]));
            assert_eq!(keys.key, [5; 32]);
            assert_eq!(keys.iv, [6; 16]);
        }
        _ => panic!("the job is not building"),
    }
}

fn step_from(job: PackingJob) -> (PackingJob, Step) {
    step(job, WorkerInput::Proceed)
}

#[test]
fn results_for_another_stage_are_not_taken() {
    let (job, none) = new_job().after_compression(Ok(vec![1]));
    assert!(none.is_none());
    assert_eq!(job.current_stage(), JobStage::Idle);
    let (job, none) = job.after_key_generation(Ok(KeyMaterial { key: [0; 32], iv: [0; 16] }));
    assert!(none.is_none());
    assert_eq!(job.current_stage(), JobStage::Idle);
}

#[test]
fn every_stage_has_its_percent_and_request() {
    assert_eq!(percent_for(JobStage::Idle), 0);
    assert_eq!(percent_for(JobStage::Reading), 10);
    assert_eq!(percent_for(JobStage::Classifying), 15);
    assert_eq!(percent_for(JobStage::Compressing), 20);
    assert_eq!(percent_for(JobStage::KeyGen), 30);
    assert_eq!(percent_for(JobStage::Encrypting), 40);
    assert_eq!(percent_for(JobStage::Building), 50);
    assert_eq!(percent_for(JobStage::Done), 100);
    assert_eq!(percent_for(JobStage::Unsupported), 100);
    assert_eq!(percent_for(JobStage::Failed), 100);
    assert_eq!(request_for(JobStage::Reading), Request::ReadInput);
    assert_eq!(request_for(JobStage::Classifying), Request::Continue);
    assert_eq!(request_for(JobStage::Building), Request::Build);
    assert_eq!(request_for(JobStage::Done), Request::Stop);
    assert_eq!(request_for(JobStage::Unsupported), Request::Stop);
    assert_eq!(request_for(JobStage::Failed), Request::Stop);
}

#[test]
fn the_compressing_stage_hands_on_the_stream_of_the_payload() {
    let payload = minimal_elf();
    let mut job = new_job();
    job.payload = payload.clone();
    job.progress = Progress::Compressing;
    let (job, step) = step(job, WorkerInput::Proceed);
    assert_eq!(job.current_stage(), JobStage::KeyGen);
    assert_eq!(step.event.percent, 30);
    match &job.progress {
        Progress::KeyGen { compressed } => {
            assert_eq!(compressed, &compress_data(&payload).unwrap());
        }
        _ => panic!("the job is not waiting for key material"),
    }
}
