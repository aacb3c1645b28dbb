use foodpanda_etl::error::Error;
use foodpanda_etl::storage::minio::{
    CompletedPart, MinioUploader, UploadAction, UploadEvent, UploadPhase, UploadState, CHUNK_SIZE,
    MAX_PARTS,
};
use foodpanda_etl::storage::target::UploadTarget;

fn step(uploader: &MinioUploader, state: &mut UploadState, event: UploadEvent) -> UploadAction {
    assert!(state.expects(&event));
    if matches!(state.phase, UploadPhase::Single) {
        uploader.upload_single_part(state, event)
    } else {
        uploader.upload_multipart(state, event)
    }
}

fn run_multipart(size: u64) -> (Vec<(i32, u64, u64)>, Vec<(i32, String)>) {
    let uploader = MinioUploader::new("vendors");
    let (mut state, action) = uploader.upload_parquet_file(size);
    assert!(matches!(action, UploadAction::CreateSession));
    let mut action =
        step(&uploader, &mut state, UploadEvent::SessionCreated { upload_id: Some("id-1".to_string()) });
    let mut sent = Vec::new();
    loop {
        match action {
            UploadAction::UploadPart { upload_id, part_number, offset, length } => {
                assert_eq!(upload_id, "id-1");
                sent.push((part_number, offset, length));
                action = step(
                    &uploader,
                    &mut state,
                    UploadEvent::PartUploaded { e_tag: Some(format!("etag-{}", part_number)) },
                );
            }
            UploadAction::Complete { upload_id, parts } => {
                assert_eq!(upload_id, "id-1");
                let receipts = parts.into_iter().map(|p| (p.part_number, p.e_tag)).collect();
                let last = step(&uploader, &mut state, UploadEvent::Completed);
                assert!(matches!(last, UploadAction::Finish));
                assert!(matches!(state.phase, UploadPhase::Done));
                return (sent, receipts);
            }
            other => panic!("unexpected action {:?}", other),
        }
    }
}

#[test]
fn chunk_size_is_eight_mebibytes() {
    assert_eq!(CHUNK_SIZE, 8 * 1024 * 1024);
    assert_eq!(MAX_PARTS, i32::MAX as u64);
    assert_eq!(MinioUploader::content_type(), "application/x-parquet");
    assert_eq!(MinioUploader::new("vendors").bucket(), "vendors");
}

#[test]
fn artifact_of_exactly_the_threshold_goes_in_one_piece() {
    let uploader = MinioUploader::new("vendors");
    for size in [0, 1, CHUNK_SIZE - 1, CHUNK_SIZE] {
        let (mut state, action) = uploader.upload_parquet_file(size);
        assert!(matches!(action, UploadAction::PutObject));
        assert!(matches!(state.phase, UploadPhase::Single));
        assert_eq!(state.size, size);
        let done = step(&uploader, &mut state, UploadEvent::Stored);
        assert!(matches!(done, UploadAction::Finish));
        assert!(matches!(state.phase, UploadPhase::Done));
    }
}

#[test]
fn one_byte_more_than_the_threshold_goes_in_two_parts() {
    let (sent, receipts) = run_multipart(CHUNK_SIZE + 1);
    assert_eq!(sent, vec![(1, 0, CHUNK_SIZE), (2, CHUNK_SIZE, 1)]);
    assert_eq!(receipts, vec![(1, "etag-1".to_string()), (2, "etag-2".to_string())]);
}

#[test]
fn parts_are_numbered_from_one_without_gaps_and_cover_the_artifact() {
    for size in [2 * CHUNK_SIZE, 2 * CHUNK_SIZE + 1, 5 * CHUNK_SIZE - 1, 20 * CHUNK_SIZE + 12345] {
        let (sent, receipts) = run_multipart(size);
        let parts = (size + CHUNK_SIZE - 1) / CHUNK_SIZE;
        assert_eq!(sent.len() as u64, parts);
        assert_eq!(receipts.len() as u64, parts);
        let mut next_offset = 0;
        for (i, (number, offset, length)) in sent.iter().enumerate() {
            assert_eq!(*number, i as i32 + 1);
            assert_eq!(*offset, next_offset);
            assert!(*length >= 1 && *length <= CHUNK_SIZE);
            if (i as u64) + 1 < parts {
                assert_eq!(*length, CHUNK_SIZE);
            }
            next_offset += length;
        }
        assert_eq!(next_offset, size);
        for (i, (number, tag)) in receipts.iter().enumerate() {
            assert_eq!(*number, i as i32 + 1);
            assert_eq!(tag, &format!("etag-{}", i + 1));
        }
    }
}

#[test]
fn withheld_token_is_kept_as_empty_text() {
    let uploader = MinioUploader::new("vendors");
    let (mut state, _) = uploader.upload_parquet_file(CHUNK_SIZE + 1);
    step(&uploader, &mut state, UploadEvent::SessionCreated { upload_id: Some("s".to_string()) });
    step(&uploader, &mut state, UploadEvent::PartUploaded { e_tag: None });
    match step(&uploader, &mut state, UploadEvent::PartUploaded { e_tag: Some("t".to_string()) }) {
        UploadAction::Complete { parts, .. } => {
            assert_eq!(parts[0].e_tag, "");
            assert_eq!(parts[1].e_tag, "t");
        }
        other => panic!("unexpected action {:?}", other),
    }
}

#[test]
fn session_without_id_is_a_storage_failure() {
    let uploader = MinioUploader::new("vendors");
    let (mut state, _) = uploader.upload_parquet_file(3 * CHUNK_SIZE);
    match step(&uploader, &mut state, UploadEvent::SessionCreated { upload_id: None }) {
        UploadAction::Abort(Error::Storage(reason)) => assert_eq!(reason, "Failed to get upload ID"),
        other => panic!("unexpected action {:?}", other),
    }
    assert!(matches!(state.phase, UploadPhase::Failed));
    assert!(!state.expects(&UploadEvent::Completed));
}

#[test]
fn any_failure_gives_up_the_upload() {
    let uploader = MinioUploader::new("vendors");

    let (mut single, _) = uploader.upload_parquet_file(10);
    let action = step(&uploader, &mut single, UploadEvent::Failed(Error::S3("denied".to_string())));
    assert!(matches!(action, UploadAction::Abort(Error::S3(_))));
    assert!(matches!(single.phase, UploadPhase::Failed));

    let (mut creating, _) = uploader.upload_parquet_file(3 * CHUNK_SIZE);
    let action =
        step(&uploader, &mut creating, UploadEvent::Failed(Error::AwsSdk("dispatch".to_string())));
    assert!(matches!(action, UploadAction::Abort(Error::AwsSdk(_))));

    let (mut uploading, _) = uploader.upload_parquet_file(3 * CHUNK_SIZE);
    step(&uploader, &mut uploading, UploadEvent::SessionCreated { upload_id: Some("s".to_string()) });
    step(&uploader, &mut uploading, UploadEvent::PartUploaded { e_tag: Some("a".to_string()) });
    let action = step(&uploader, &mut uploading, UploadEvent::Failed(Error::Io("read".to_string())));
    assert!(matches!(action, UploadAction::Abort(Error::Io(_))));
    assert!(matches!(uploading.phase, UploadPhase::Failed));
}

#[test]
fn artifact_with_too_many_parts_is_refused() {
    let uploader = MinioUploader::new("vendors");
    let largest = MAX_PARTS * CHUNK_SIZE;
    let (state, action) = uploader.upload_parquet_file(largest);
    assert!(matches!(action, UploadAction::CreateSession));
    assert!(matches!(state.phase, UploadPhase::Creating));
    let (state, action) = uploader.upload_parquet_file(largest + 1);
    match action {
        UploadAction::Abort(Error::Storage(reason)) => assert_eq!(reason, "Too many parts"),
        other => panic!("unexpected action {:?}", other),
    }
    assert!(matches!(state.phase, UploadPhase::Failed));
    let (_, action) = uploader.upload_parquet_file(u64::MAX);
    assert!(matches!(action, UploadAction::Abort(Error::Storage(_))));
}

#[test]
fn object_key_is_partitioned_by_city_and_date() {
    let target = UploadTarget::new("vendors", "69036", 1741816160).unwrap();
    assert_eq!(target.key, "city_id=69036/year=2025/month=03/day=12/vendors_1741816160.parquet");
    assert_eq!(target.bucket, "vendors");
    assert_eq!(target.city_id, "69036");
    assert_eq!((target.year, target.month, target.day), (2025, 3, 12));
    assert_eq!(target.content_type, "application/x-parquet");

    let epoch = UploadTarget::new("b", "c", 0).unwrap();
    assert_eq!(epoch.key, "city_id=c/year=1970/month=01/day=01/vendors_0.parquet");
    let before = UploadTarget::new("b", "c", -1).unwrap();
    assert_eq!(before.key, "city_id=c/year=1969/month=12/day=31/vendors_-1.parquet");
    let new_year = UploadTarget::new("b", "c", 1735689599).unwrap();
    assert_eq!(new_year.key, "city_id=c/year=2024/month=12/day=31/vendors_1735689599.parquet");
}

#[test]
fn moment_outside_the_calendar_has_no_target() {
    assert!(UploadTarget::new("b", "c", i64::MAX).is_none());
    assert!(UploadTarget::new("b", "c", i64::MIN).is_none());
}

#[test]
fn key_is_built_from_the_partition_given() {
    let target = UploadTarget::partitioned("b", "k h i", -44, 10, 9, 7);
    assert_eq!(target.key, "city_id=k h i/year=-44/month=10/day=09/vendors_7.parquet");
    assert_eq!((target.year, target.month, target.day), (-44, 10, 9));
}

#[test]
fn upload_states_made_by_hand_are_checked() {
    assert!(UploadState { size: 5, phase: UploadPhase::Single }.is_valid());
    assert!(!UploadState { size: CHUNK_SIZE + 1, phase: UploadPhase::Single }.is_valid());
    assert!(UploadState { size: CHUNK_SIZE + 1, phase: UploadPhase::Creating }.is_valid());
    assert!(!UploadState { size: CHUNK_SIZE, phase: UploadPhase::Creating }.is_valid());
    let receipts = |numbers: &[i32]| {
        numbers.iter().map(|n| CompletedPart { part_number: *n, e_tag: String::new() }).collect()
    };
    let uploading = |size: u64, numbers: &[i32]| UploadState {
        size,
        phase: UploadPhase::Uploading { upload_id: "s".to_string(), receipts: receipts(numbers) },
    };
    assert!(uploading(3 * CHUNK_SIZE, &[]).is_valid());
    assert!(uploading(3 * CHUNK_SIZE, &[1, 2]).is_valid());
    assert!(!uploading(3 * CHUNK_SIZE, &[1, 2, 3]).is_valid());
    assert!(!uploading(3 * CHUNK_SIZE, &[1, 3]).is_valid());
    assert!(!uploading(3 * CHUNK_SIZE, &[0]).is_valid());
    assert!(!uploading(CHUNK_SIZE, &[]).is_valid());
    assert!(UploadState { size: 0, phase: UploadPhase::Done }.is_valid());
}

#[test]
fn storage_failures_have_their_words() {
    match MinioUploader::access_failure("vendors", "timed out") {
        Error::Storage(words) => assert_eq!(words, "Cannot access bucket 'vendors': timed out"),
        other => panic!("unexpected failure {:?}", other),
    }
    match MinioUploader::upload_failure(
        Some(("AccessDenied".to_string(), "Response { status: 403 }".to_string())),
        "service error",
    ) {
        Error::Storage(words) => {
            assert_eq!(words, "MinIO service error: AccessDenied (raw: Response { status: 403 })")
        }
        other => panic!("unexpected failure {:?}", other),
    }
    match MinioUploader::upload_failure(None, "dispatch failure") {
        Error::Storage(words) => assert_eq!(words, "MinIO error: dispatch failure"),
        other => panic!("unexpected failure {:?}", other),
    }
}
