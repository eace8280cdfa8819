use ami_uploader::error::UploadError;
use ami_uploader::upload::{
    destination_key, plan_from, prepare, Phase, Pipeline, StageAction, StageEvent, UploadParams,
    UploadPlan, DEFAULT_AWS_BUCKET_KEY, TOTAL_STEPS,
};
use rusoto_core::Region;

fn params(region: &str, key: &str, image: &str) -> UploadParams {
    UploadParams {
        region: region.to_string(),
        bucket: "b".to_string(),
        key: key.to_string(),
        image: image.to_string(),
        ena: true,
        name: "my-image".to_string(),
    }
}

fn plan() -> UploadPlan {
    UploadPlan {
        region: Region::UsWest2,
        bucket: "b".to_string(),
        key: "new-ami-source-image.vhd".to_string(),
        source_path: "disk.vhd".to_string(),
        format: "vhd".to_string(),
        image_name: "my-image".to_string(),
        ena: false,
    }
}

fn submit() -> StageAction {
    StageAction::Submit {
        bucket: "b".to_string(),
        key: "new-ami-source-image.vhd".to_string(),
        format: "vhd".to_string(),
    }
}

#[test]
fn default_key_is_the_sentinel() {
    assert_eq!(DEFAULT_AWS_BUCKET_KEY, "new-ami-source-image");
    assert_eq!(TOTAL_STEPS, 4);
}

#[test]
fn destination_key_suffixes_the_default_key_with_the_format() {
    assert_eq!(
        destination_key("new-ami-source-image".to_string(), "vhd"),
        "new-ami-source-image.vhd"
    );
    assert_eq!(
        destination_key("new-ami-source-image".to_string(), "vmdk"),
        "new-ami-source-image.vmdk"
    );
    assert_eq!(destination_key("new-ami-source-image".to_string(), ""), "new-ami-source-image.");
}

#[test]
fn destination_key_leaves_any_other_key_unchanged() {
    assert_eq!(destination_key("images/disk".to_string(), "vhd"), "images/disk");
    assert_eq!(destination_key("".to_string(), "vhd"), "");
    assert_eq!(
        destination_key("new-ami-source-image.vhd".to_string(), "vhd"),
        "new-ami-source-image.vhd"
    );
    assert_eq!(
        destination_key("New-Ami-Source-Image".to_string(), "vhd"),
        "New-Ami-Source-Image"
    );
    assert_eq!(
        destination_key("new-ami-source-image ".to_string(), "vhd"),
        "new-ami-source-image "
    );
}

#[test]
fn plan_from_needs_an_extension() {
    let refused = plan_from(params("us-west-2", "k", "disk"), Region::UsWest2, None);
    assert_eq!(refused, Err(UploadError::Config));
}

#[test]
fn plan_from_keeps_the_settings_and_makes_the_key_effective() {
    let made = plan_from(
        params("eu-west-1", "new-ami-source-image", "images/disk.raw"),
        Region::EuWest1,
        Some("raw".to_string()),
    );
    assert_eq!(
        made,
        Ok(UploadPlan {
            region: Region::EuWest1,
            bucket: "b".to_string(),
            key: "new-ami-source-image.raw".to_string(),
            source_path: "images/disk.raw".to_string(),
            format: "raw".to_string(),
            image_name: "my-image".to_string(),
            ena: true,
        })
    );
}

#[test]
fn prepare_suffixes_the_default_key_for_a_vhd_image() {
    let plan = prepare(params("us-west-2", "new-ami-source-image", "disk.vhd"))
        .expect("a known region and a path with an extension");
    assert_eq!(plan.key, "new-ami-source-image.vhd");
    assert_eq!(plan.format, "vhd");
    assert_eq!(plan.bucket, "b");
    assert_eq!(plan.source_path, "disk.vhd");
    assert_eq!(plan.image_name, "my-image");
    assert!(plan.ena);
    assert_eq!(plan.region, Region::UsWest2);
    let (pipeline, upload) = Pipeline::start(plan);
    assert_eq!(
        upload,
        StageAction::Upload {
            bucket: "b".to_string(),
            key: "new-ami-source-image.vhd".to_string(),
            source_path: "disk.vhd".to_string(),
        }
    );
    let (_, next) = pipeline.step(StageEvent::Uploaded);
    assert_eq!(next, Some(submit()));
}

#[test]
fn prepare_passes_a_chosen_key_through() {
    let plan = prepare(params("us-west-2", "backups/monday", "disk.vhd")).expect("a plan");
    assert_eq!(plan.key, "backups/monday");
    assert_eq!(plan.format, "vhd");
}

#[test]
fn prepare_takes_the_format_from_the_last_extension_of_the_file_name() {
    let format = |image: &str| prepare(params("us-west-2", "k", image)).map(|plan| plan.format);
    assert_eq!(format("disk.vhd"), Ok("vhd".to_string()));
    assert_eq!(format("images.d/disk.vmdk"), Ok("vmdk".to_string()));
    assert_eq!(format("/var/tmp/disk.tar.gz"), Ok("gz".to_string()));
    assert_eq!(format("disk.VHD"), Ok("VHD".to_string()));
    assert_eq!(format("./disk.raw"), Ok("raw".to_string()));
    assert_eq!(format(".hidden.img"), Ok("img".to_string()));
}

#[test]
fn prepare_finds_an_extension_exactly_where_the_path_has_one() {
    let images = [
        "disk.vhd",
        "disk",
        "disk.",
        ".hidden",
        ".hidden.img",
        "a.b.c",
        "images.d/disk",
        "images.d/disk.vmdk",
        "disk.vhd/",
        "dir/..",
        "..",
        ".",
        "",
        "name with spaces.raw",
    ];
    for image in images.iter() {
        let found = std::path::Path::new(image)
            .extension()
            .map(|extension| extension.to_str().expect("text").to_string());
        let planned = prepare(params("us-west-2", "new-ami-source-image", image));
        match found {
            Some(format) => {
                let plan = planned.expect("a plan for a path with an extension");
                assert_eq!(plan.key, format!("new-ami-source-image.{}", format));
                assert_eq!(plan.format, format);
                assert_eq!(plan.source_path, *image);
            }
            None => assert_eq!(planned, Err(UploadError::Config)),
        }
    }
}

#[test]
fn prepare_keeps_an_empty_extension_as_it_is() {
    let plan = prepare(params("us-west-2", "new-ami-source-image", "disk.")).expect("a plan");
    assert_eq!(plan.format, "");
    assert_eq!(plan.key, "new-ami-source-image.");
}

#[test]
fn prepare_refuses_an_image_without_extension() {
    let refused = |image: &str| prepare(params("us-west-2", "k", image)).err();
    assert_eq!(refused("disk"), Some(UploadError::Config));
    assert_eq!(refused("images.d/disk"), Some(UploadError::Config));
    assert_eq!(refused(".hidden"), Some(UploadError::Config));
    assert_eq!(refused(""), Some(UploadError::Config));
    assert_eq!(refused(".."), Some(UploadError::Config));
}

#[test]
fn prepare_refuses_an_unknown_region() {
    let refused = |region: &str| prepare(params(region, "k", "disk.vhd")).err();
    assert_eq!(refused("mars-north-1"), Some(UploadError::RegionParse));
    assert_eq!(refused(""), Some(UploadError::RegionParse));
    assert_eq!(refused("us-west-2 "), Some(UploadError::RegionParse));
    assert_eq!(refused("us_west_2"), Some(UploadError::RegionParse));
}

#[test]
fn prepare_checks_the_region_before_the_image() {
    assert_eq!(prepare(params("mars-north-1", "k", "disk")), Err(UploadError::RegionParse));
}

#[test]
fn prepare_knows_regions_by_their_names_in_any_case() {
    let region = |name: &str| prepare(params(name, "k", "disk.vhd")).map(|plan| plan.region);
    assert_eq!(region("us-west-2"), Ok(Region::UsWest2));
    assert_eq!(region("US-WEST-2"), Ok(Region::UsWest2));
    assert_eq!(region("uswest2"), Ok(Region::UsWest2));
    assert_eq!(region("eu-central-1"), Ok(Region::EuCentral1));
    assert_eq!(region("ap-northeast-1"), Ok(Region::ApNortheast1));
}

#[test]
fn phases_are_numbered_and_labelled() {
    assert_eq!(Phase::Uploading.position(), 1);
    assert_eq!(Phase::Submitting.position(), 2);
    assert_eq!(Phase::Polling.position(), 3);
    assert_eq!(Phase::Registering.position(), 4);
    assert_eq!(Phase::Done.position(), 0);
    assert_eq!(Phase::Failed.position(), 0);
    assert_eq!(Phase::Uploading.message(), "Copying to S3...");
    assert_eq!(Phase::Submitting.message(), "Importing snapshot...");
    assert_eq!(Phase::Polling.message(), "Waiting on snapshot task queue...");
    assert_eq!(Phase::Registering.message(), "Registering new AWS AMI image...");
    assert_eq!(Phase::Done.message(), "");
    assert_eq!(Phase::Failed.message(), "");
}

#[test]
fn phases_run_until_done_or_failed() {
    assert!(Phase::Uploading.is_running());
    assert!(Phase::Submitting.is_running());
    assert!(Phase::Polling.is_running());
    assert!(Phase::Registering.is_running());
    assert!(!Phase::Done.is_running());
    assert!(!Phase::Failed.is_running());
}

#[test]
fn pipeline_runs_the_four_stages_in_order() {
    let (pipeline, action) = Pipeline::start(plan());
    assert_eq!(pipeline.phase, Phase::Uploading);
    assert_eq!(
        action,
        StageAction::Upload {
            bucket: "b".to_string(),
            key: "new-ami-source-image.vhd".to_string(),
            source_path: "disk.vhd".to_string(),
        }
    );
    let (pipeline, action) = pipeline.step(StageEvent::Uploaded);
    assert_eq!(pipeline.phase, Phase::Submitting);
    assert_eq!(action, Some(submit()));
    let (pipeline, action) =
        pipeline.step(StageEvent::Submitted { task: "import-snap-1".to_string() });
    assert_eq!(pipeline.phase, Phase::Polling);
    assert_eq!(action, Some(StageAction::Poll { task: "import-snap-1".to_string() }));
    let (pipeline, action) = pipeline.step(StageEvent::Polled { snapshot: "snap-123".to_string() });
    assert_eq!(pipeline.phase, Phase::Registering);
    assert_eq!(
        action,
        Some(StageAction::Register {
            snapshot: "snap-123".to_string(),
            name: "my-image".to_string(),
            ena: false,
        })
    );
    let (pipeline, action) =
        pipeline.step(StageEvent::Registered { image_id: "ami-0123".to_string() });
    assert_eq!(pipeline.phase, Phase::Done);
    assert_eq!(action, Some(StageAction::Finish { image_id: "ami-0123".to_string() }));
    assert_eq!(pipeline.plan, plan());
}

#[test]
fn pipeline_invokes_nothing_after_a_failed_upload() {
    let (pipeline, _) = Pipeline::start(plan());
    let (pipeline, action) = pipeline.step(StageEvent::Failed { error: UploadError::Service });
    assert_eq!(action, Some(StageAction::Abort { error: UploadError::Service }));
    assert_eq!(pipeline.phase, Phase::Failed);
    let (pipeline, action) = pipeline.step(StageEvent::Uploaded);
    assert_eq!((pipeline.phase, action), (Phase::Failed, None));
    let (pipeline, action) = pipeline.step(StageEvent::Submitted { task: "t".to_string() });
    assert_eq!((pipeline.phase, action), (Phase::Failed, None));
    let (pipeline, action) = pipeline.step(StageEvent::Polled { snapshot: "s".to_string() });
    assert_eq!((pipeline.phase, action), (Phase::Failed, None));
    let (pipeline, action) = pipeline.step(StageEvent::Registered { image_id: "i".to_string() });
    assert_eq!((pipeline.phase, action), (Phase::Failed, None));
    let (pipeline, action) = pipeline.step(StageEvent::Failed { error: UploadError::Io });
    assert_eq!((pipeline.phase, action), (Phase::Failed, None));
}

#[test]
fn pipeline_reports_an_unreadable_source_file() {
    let (pipeline, _) = Pipeline::start(plan());
    let (pipeline, action) = pipeline.step(StageEvent::Failed { error: UploadError::Io });
    assert_eq!(action, Some(StageAction::Abort { error: UploadError::Io }));
    assert_eq!(pipeline.phase, Phase::Failed);
}

#[test]
fn pipeline_aborts_at_the_first_failure_of_any_stage() {
    let successes = [
        StageEvent::Uploaded,
        StageEvent::Submitted { task: "import-snap-1".to_string() },
        StageEvent::Polled { snapshot: "snap-123".to_string() },
        StageEvent::Registered { image_id: "ami-0123".to_string() },
    ];
    for failing in 0..successes.len() {
        let (mut pipeline, _) = Pipeline::start(plan());
        for event in successes.iter().take(failing) {
            let (next, action) = pipeline.step(event.clone());
            assert!(action.is_some());
            pipeline = next;
        }
        let (pipeline, action) = pipeline.step(StageEvent::Failed { error: UploadError::Service });
        assert_eq!(action, Some(StageAction::Abort { error: UploadError::Service }));
        assert_eq!(pipeline.phase, Phase::Failed);
        let (pipeline, action) = pipeline.step(successes[failing].clone());
        assert_eq!((pipeline.phase, action), (Phase::Failed, None));
    }
}

#[test]
fn pipeline_takes_no_event_out_of_turn() {
    let (pipeline, _) = Pipeline::start(plan());
    let (pipeline, action) = pipeline.step(StageEvent::Polled { snapshot: "snap-123".to_string() });
    assert_eq!((pipeline.phase, action), (Phase::Uploading, None));
    let (pipeline, action) = pipeline.step(StageEvent::Registered { image_id: "i".to_string() });
    assert_eq!((pipeline.phase, action), (Phase::Uploading, None));
    let (pipeline, _) = pipeline.step(StageEvent::Uploaded);
    let (pipeline, action) = pipeline.step(StageEvent::Uploaded);
    assert_eq!((pipeline.phase, action), (Phase::Submitting, None));
}

#[test]
fn pipeline_stays_done_once_it_is_done() {
    let pipeline = Pipeline { plan: plan(), phase: Phase::Done };
    let (pipeline, action) = pipeline.step(StageEvent::Failed { error: UploadError::Service });
    assert_eq!((pipeline.phase, action), (Phase::Done, None));
    let (pipeline, action) = pipeline.step(StageEvent::Uploaded);
    assert_eq!((pipeline.phase, action), (Phase::Done, None));
}
