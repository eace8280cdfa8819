//! The calls made to the storage and compute services, as plain values:
//! what each request holds, and what is read out of each reply.
//!
//! Nothing here talks to a service. A caller sends the request that one of
//! these functions builds and hands the reply to the function that reads it.

use crate::error::UploadError;
use vstd::prelude::*;

verus! {

/// Names an import job.
pub type ImportTaskId = String;

/// Names the snapshot that a completed import job has produced.
pub type SnapshotId = String;

/// Names a registered machine image.
pub type ImageId = String;

/// Description put on everything that an import creates.
pub const IMPORT_DESCRIPTION: &'static str = "ami-uploader created this object";

/// Device name of the root volume of a registered image.
pub const ROOT_DEVICE_NAME: &'static str = "/dev/sda1";

/// Architecture of a registered image.
pub const ARCHITECTURE: &'static str = "x86_64";

/// Virtualization type of a registered image.
pub const VIRTUALIZATION_TYPE: &'static str = "hvm";

/// The status text of an import job that has finished.
pub const STATUS_COMPLETED: &'static str = "completed";

/// The owner to ask for when listing one's own images.
pub const OWNER_SELF: &'static str = "self";

/// Upload of a blob under a key of a bucket.
#[derive(Clone, Debug, PartialEq, Eq)]
pub struct PutObjectRequest {
    pub bucket: String,
    pub key: String,
    pub body: Vec<u8>,
}

/// Where in object storage an image to import lies.
#[derive(Clone, Debug, PartialEq, Eq)]
pub struct UserBucket {
    pub s3_bucket: String,
    pub s3_key: String,
}

/// The image to import: its format and its place.
#[derive(Clone, Debug, PartialEq, Eq)]
pub struct SnapshotDiskContainer {
    pub description: String,
    pub format: String,
    pub user_bucket: UserBucket,
}

/// Start of an import job.
#[derive(Clone, Debug, PartialEq, Eq)]
pub struct ImportSnapshotRequest {
    pub description: String,
    pub disk_container: SnapshotDiskContainer,
}

/// Status query for import jobs.
#[derive(Clone, Debug, PartialEq, Eq)]
pub struct DescribeImportSnapshotTasksRequest {
    pub import_task_ids: Vec<ImportTaskId>,
}

/// The volume behind a device of an image.
#[derive(Clone, Debug, PartialEq, Eq)]
pub struct EbsBlockDevice {
    pub delete_on_termination: bool,
    pub snapshot_id: SnapshotId,
}

/// A device of an image and the volume behind it.
#[derive(Clone, Debug, PartialEq, Eq)]
pub struct BlockDeviceMapping {
    pub device_name: String,
    pub ebs: EbsBlockDevice,
}

/// Registration of a machine image.
#[derive(Clone, Debug, PartialEq, Eq)]
pub struct RegisterImageRequest {
    pub architecture: String,
    pub root_device_name: String,
    pub virtualization_type: String,
    pub block_device_mappings: Vec<BlockDeviceMapping>,
    pub name: String,
    pub ena_support: bool,
}

/// Removal of a machine image.
#[derive(Clone, Debug, PartialEq, Eq)]
pub struct DeregisterImageRequest {
    pub image_id: ImageId,
}

/// Listing of the images of some owners.
#[derive(Clone, Debug, PartialEq, Eq)]
pub struct DescribeImagesRequest {
    pub owners: Vec<String>,
}

/// Reply to the start of an import job.
#[derive(Clone, Debug, PartialEq, Eq)]
pub struct ImportSnapshotResult {
    pub import_task_id: Option<ImportTaskId>,
}

/// What a status reply tells of one job.
#[derive(Clone, Debug, PartialEq, Eq)]
pub struct SnapshotTaskDetail {
    pub status: Option<String>,
    pub snapshot_id: Option<SnapshotId>,
}

/// One job of a status reply.
#[derive(Clone, Debug, PartialEq, Eq)]
pub struct ImportSnapshotTask {
    pub snapshot_task_detail: Option<SnapshotTaskDetail>,
}

/// Reply to a status query.
#[derive(Clone, Debug, PartialEq, Eq)]
pub struct DescribeImportSnapshotTasksResult {
    pub import_snapshot_tasks: Option<Vec<ImportSnapshotTask>>,
}

/// Reply to the registration of an image.
#[derive(Clone, Debug, PartialEq, Eq)]
pub struct RegisterImageResult {
    pub image_id: Option<ImageId>,
}

/// One image of a listing.
#[derive(Clone, Debug, PartialEq, Eq)]
pub struct Image {
    pub name: Option<String>,
    pub image_id: Option<ImageId>,
}

/// Reply to a listing of images.
#[derive(Clone, Debug, PartialEq, Eq)]
pub struct DescribeImagesResult {
    pub images: Option<Vec<Image>>,
}

/// The two states of an import job that the poller tells apart.
#[derive(Clone, Copy, Debug, PartialEq, Eq, Structural)]
pub enum JobStatus {
    /// Not finished, as far as the status text tells.
    Pending,
    /// Finished: the snapshot exists.
    Completed,
}

/// The state that a status text stands for: `Completed` for the exact text
/// `completed`, `Pending` for every other text.
pub open spec fn status_of(text: Seq<char>) -> JobStatus {
    if text == STATUS_COMPLETED@ {
        JobStatus::Completed
    } else {
        JobStatus::Pending
    }
}

impl JobStatus {
    /// Reads a status text. Only the exact text `completed` is terminal.
    pub fn from_text(text: &str) -> (status: JobStatus)
        ensures
            status == status_of(text@),
    {
        let given: String = text.to_owned();
        let completed: String = STATUS_COMPLETED.to_owned();
        if given == completed {
            JobStatus::Completed
        } else {
            JobStatus::Pending
        }
    }
}

/// The request that uploads `contents` to `object_key` in `bucket_name`.
pub fn s3_put_object(bucket_name: &str, object_key: &str, contents: Vec<u8>) -> (req:
    PutObjectRequest)
    ensures
        req.bucket@ == bucket_name@,
        req.key@ == object_key@,
        req.body@ == contents@,
{
    PutObjectRequest { bucket: bucket_name.to_owned(), key: object_key.to_owned(), body: contents }
}

/// The request that starts the import of the image at `object_key` in
/// `bucket_name`. The format goes through as given.
pub fn ec2_import_snapshot(bucket_name: &str, object_key: &str, format: &str) -> (req:
    ImportSnapshotRequest)
    ensures
        req.description@ == IMPORT_DESCRIPTION@,
        req.disk_container.description@ == IMPORT_DESCRIPTION@,
        req.disk_container.format@ == format@,
        req.disk_container.user_bucket.s3_bucket@ == bucket_name@,
        req.disk_container.user_bucket.s3_key@ == object_key@,
{
    let user_bucket = UserBucket {
        s3_bucket: bucket_name.to_owned(),
        s3_key: object_key.to_owned(),
    };
    let disk_container = SnapshotDiskContainer {
        description: IMPORT_DESCRIPTION.to_owned(),
        format: format.to_owned(),
        user_bucket,
    };
    ImportSnapshotRequest { description: IMPORT_DESCRIPTION.to_owned(), disk_container }
}

/// The job that a reply to `ec2_import_snapshot` names. A reply that names
/// none is a failure of the service.
pub fn import_task_id(reply: ImportSnapshotResult) -> (r: Result<ImportTaskId, UploadError>)
    ensures
        match reply.import_task_id {
            Some(id) => r == Ok::<ImportTaskId, UploadError>(id),
            None => r == Err::<ImportTaskId, UploadError>(UploadError::Service),
        },
{
    match reply.import_task_id {
        Some(id) => Ok(id),
        None => Err(UploadError::Service),
    }
}

/// The request that asks for the status of the one job `id`.
pub fn ec2_describe_import_snapshot_tasks(id: &ImportTaskId) -> (req:
    DescribeImportSnapshotTasksRequest)
    ensures
        req.import_task_ids@.len() == 1,
        req.import_task_ids@[0]@ == id@,
{
    let mut import_task_ids: Vec<ImportTaskId> = Vec::new();
    import_task_ids.push(id.clone());
    DescribeImportSnapshotTasksRequest { import_task_ids }
}

/// What a status reply says of the job asked for, which is the first of
/// the reply: its snapshot if its status is `completed`, nothing if its
/// status is any other text, and a failure of the service if the reply holds
/// no job, no detail, no status, or a completed job without a snapshot.
pub open spec fn snapshot_in(reply: DescribeImportSnapshotTasksResult) -> Result<
    Option<Seq<char>>,
    UploadError,
> {
    match reply.import_snapshot_tasks {
        None => Err(UploadError::Service),
        Some(tasks) => if tasks@.len() == 0 {
            Err(UploadError::Service)
        } else {
            match tasks@[0].snapshot_task_detail {
                None => Err(UploadError::Service),
                Some(detail) => match detail.status {
                    None => Err(UploadError::Service),
                    Some(status) => match status_of(status@) {
                        JobStatus::Pending => Ok(None),
                        JobStatus::Completed => match detail.snapshot_id {
                            None => Err(UploadError::Service),
                            Some(id) => Ok(Some(id@)),
                        },
                    },
                },
            }
        },
    }
}

/// Reads the reply to `ec2_describe_import_snapshot_tasks`: the snapshot
/// once the job is completed, `None` while it is not.
pub fn completed_snapshot(reply: &DescribeImportSnapshotTasksResult) -> (r: Result<
    Option<SnapshotId>,
    UploadError,
>)
    ensures
        match r {
            Ok(Some(id)) => snapshot_in(*reply) == Ok::<Option<Seq<char>>, UploadError>(
                Some(id@),
            ),
            Ok(None) => snapshot_in(*reply) == Ok::<Option<Seq<char>>, UploadError>(None),
            Err(e) => snapshot_in(*reply) == Err::<Option<Seq<char>>, UploadError>(e),
        },
{
    match &reply.import_snapshot_tasks {
        None => Err(UploadError::Service),
        Some(tasks) => {
            if tasks.len() == 0 {
                return Err(UploadError::Service);
            }
            match &tasks[0].snapshot_task_detail {
                None => Err(UploadError::Service),
                Some(detail) => match &detail.status {
                    None => Err(UploadError::Service),
                    Some(status) => match JobStatus::from_text(status.as_str()) {
                        JobStatus::Pending => Ok(None),
                        JobStatus::Completed => match &detail.snapshot_id {
                            None => Err(UploadError::Service),
                            Some(id) => Ok(Some(id.clone())),
                        },
                    },
                },
            }
        },
    }
}

/// The request that registers the image `image_name` on the snapshot
/// `snapshot_id`: one root device, deleted with the instance, on a fixed
/// architecture and virtualization type.
pub fn ec2_register_image(snapshot_id: &SnapshotId, image_name: &str, image_ena: &bool) -> (req:
    RegisterImageRequest)
    ensures
        req.architecture@ == ARCHITECTURE@,
        req.root_device_name@ == ROOT_DEVICE_NAME@,
        req.virtualization_type@ == VIRTUALIZATION_TYPE@,
        req.block_device_mappings@.len() == 1,
        req.block_device_mappings@[0].device_name@ == ROOT_DEVICE_NAME@,
        req.block_device_mappings@[0].ebs.delete_on_termination,
        req.block_device_mappings@[0].ebs.snapshot_id@ == snapshot_id@,
        req.name@ == image_name@,
        req.ena_support == *image_ena,
{
    let mapping = BlockDeviceMapping {
        device_name: ROOT_DEVICE_NAME.to_owned(),
        ebs: EbsBlockDevice { delete_on_termination: true, snapshot_id: snapshot_id.clone() },
    };
    let mut block_device_mappings: Vec<BlockDeviceMapping> = Vec::new();
    block_device_mappings.push(mapping);
    RegisterImageRequest {
        architecture: ARCHITECTURE.to_owned(),
        root_device_name: ROOT_DEVICE_NAME.to_owned(),
        virtualization_type: VIRTUALIZATION_TYPE.to_owned(),
        block_device_mappings,
        name: image_name.to_owned(),
        ena_support: *image_ena,
    }
}

/// The image that a reply to `ec2_register_image` names. A reply that
/// names none is a failure of the service.
pub fn registered_image_id(reply: RegisterImageResult) -> (r: Result<ImageId, UploadError>)
    ensures
        match reply.image_id {
            Some(id) => r == Ok::<ImageId, UploadError>(id),
            None => r == Err::<ImageId, UploadError>(UploadError::Service),
        },
{
    match reply.image_id {
        Some(id) => Ok(id),
        None => Err(UploadError::Service),
    }
}

/// The request that removes the image `image_id`.
pub fn ec2_deregister_image(image_id: &ImageId) -> (req: DeregisterImageRequest)
    ensures
        req.image_id@ == image_id@,
{
    DeregisterImageRequest { image_id: image_id.clone() }
}

/// The request that lists the caller's own images.
pub fn describe_own_images() -> (req: DescribeImagesRequest)
    ensures
        req.owners@.len() == 1,
        req.owners@[0]@ == OWNER_SELF@,
{
    let mut owners: Vec<String> = Vec::new();
    owners.push(OWNER_SELF.to_owned());
    DescribeImagesRequest { owners }
}

/// Whether the image is called `name`.
pub open spec fn is_named(image: Image, name: Seq<char>) -> bool {
    match image.name {
        Some(n) => n@ == name,
        None => false,
    }
}

/// The position of the first image called `name` among `images`, or their
/// number if none is called so.
pub open spec fn first_named(images: Seq<Image>, name: Seq<char>) -> int
    decreases images.len(),
{
    if images.len() == 0 {
        0
    } else if is_named(images[0], name) {
        0
    } else {
        1 + first_named(images.drop_first(), name)
    }
}

/// The first image called `name` lies within `images`, is called `name`,
/// and nothing before it is; or the position is the number of images and
/// none is called so.
pub proof fn lemma_first_named(images: Seq<Image>, name: Seq<char>)
    ensures
        0 <= first_named(images, name) <= images.len(),
        first_named(images, name) < images.len() ==> is_named(
            images[first_named(images, name)],
            name,
        ),
        forall|i: int| 0 <= i < first_named(images, name) ==> !is_named(#[trigger] images[i], name),
    decreases images.len(),
{
    if images.len() > 0 && !is_named(images[0], name) {
        let rest = images.drop_first();
        lemma_first_named(rest, name);
        assert forall|i: int| 0 <= i < first_named(images, name) implies !is_named(
            #[trigger] images[i],
            name,
        ) by {
            if i > 0 {
                assert(images[i] == rest[i - 1]);
            }
        }
    }
}

/// What a scan of `images` for the name gives: the id of the first image
/// called `name`, nothing if no image is called so, and a failure of the
/// service if that first image has no id.
pub open spec fn image_id_named(images: Seq<Image>, name: Seq<char>) -> Result<
    Option<Seq<char>>,
    UploadError,
> {
    let at = first_named(images, name);
    if at >= images.len() {
        Ok(None)
    } else {
        match images[at].image_id {
            Some(id) => Ok(Some(id@)),
            None => Err(UploadError::Service),
        }
    }
}

/// The images of a listing; a reply without a list holds none.
pub open spec fn images_of(reply: DescribeImagesResult) -> Seq<Image> {
    match reply.images {
        Some(images) => images@,
        None => Seq::empty(),
    }
}

/// Looks through the reply to `describe_own_images`, in order, for an
/// image called `ami_name` and gives the id of the first one.
pub fn get_ami_id_from_name(reply: &DescribeImagesResult, ami_name: &str) -> (r: Result<
    Option<ImageId>,
    UploadError,
>)
    ensures
        match r {
            Ok(Some(id)) => image_id_named(images_of(*reply), ami_name@) == Ok::<
                Option<Seq<char>>,
                UploadError,
            >(Some(id@)),
            Ok(None) => image_id_named(images_of(*reply), ami_name@) == Ok::<
                Option<Seq<char>>,
                UploadError,
            >(None),
            Err(e) => image_id_named(images_of(*reply), ami_name@) == Err::<
                Option<Seq<char>>,
                UploadError,
            >(e),
        },
{
    let wanted: String = ami_name.to_owned();
    match &reply.images {
        None => Ok(None),
        Some(images) => {
            let mut i: usize = 0;
            while i < images.len()
                invariant
                    i <= images.len(),
                    images_of(*reply) == images@,
                    wanted@ == ami_name@,
                    forall|j: int| 0 <= j < i ==> !is_named(#[trigger] images@[j], ami_name@),
                decreases images.len() - i,
            {
                let named: bool = match &images[i].name {
                    Some(name) => *name == wanted,
                    None => false,
                };
                if named {
                    proof {
                        lemma_first_named(images@, ami_name@);
                    }
                    return match &images[i].image_id {
                        Some(id) => Ok(Some(id.clone())),
                        None => Err(UploadError::Service),
                    };
                }
                i = i + 1;
            }
            proof {
                lemma_first_named(images@, ami_name@);
            }
            Ok(None)
        },
    }
}

} // verus!
