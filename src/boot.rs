use vstd::prelude::*;
use crate::storage_path::{image_id_of_path, image_path_prefix, parse_image_id};

verus! {

/// Boot parameters of a node set: kernel, initrd and kernel command line.
pub struct BootParameters {
    pub hosts: Vec<String>,
    pub kernel: String,
    pub initrd: String,
    pub params: String,
}

/// Path of the kernel of image `id`.
pub open spec fn kernel_path(id: Seq<char>) -> Seq<char> {
    image_path_prefix() + id + "/kernel"@
}

/// Path of the initrd of image `id`.
pub open spec fn initrd_path(id: Seq<char>) -> Seq<char> {
    image_path_prefix() + id + "/initrd"@
}

/// The kernel parameters that every node keeps, whatever its image.
pub open spec fn baseline_params() -> Seq<char> {
    "console=ttyS0,115200 bad_page=panic crashkernel=360M hugepagelist=2m-2g intel_iommu=off intel_pstate=disable iommu.passthrough=on numa_interleave_omit=headless oops=panic pageblock_order=14 rd.neednet=1 rd.retry=10 rd.shell ip=nmn0:dhcp quiet"@
}

/// Kernel command line that boots image `id`: the baseline parameters and the
/// root filesystem of that image.
pub open spec fn command_line(id: Seq<char>) -> Seq<char> {
    baseline_params() + " root=craycps-s3:"@ + image_path_prefix() + id + "/rootfs"@
}

/// The image that boot parameters boot now, read from their kernel path.
pub open spec fn booted_image(p: BootParameters) -> Option<Seq<char>> {
    image_id_of_path(p.kernel@)
}

/// The image that `params` boot now, when their kernel path names one.
pub fn current_boot_image(params: &BootParameters) -> (r: Option<String>)
    ensures
        r is Some <==> booted_image(*params) is Some,
        r is Some ==> r->0@ == booted_image(*params)->0,
{
    match parse_image_id(params.kernel.as_str()) {
        Ok(id) => Some(id),
        Err(_) => None,
    }
}

/// The first of the boot-parameter records that the store returned.
pub fn first_boot_parameters(records: Vec<BootParameters>) -> (r: Option<BootParameters>)
    ensures
        r is None <==> records@.len() == 0,
        r is Some ==> r->0 == records@[0],
{
    let mut records = records;
    if records.len() == 0 {
        None
    } else {
        Some(records.remove(0))
    }
}

fn image_artifact_path(id: &String, tail: &str) -> (r: String)
    ensures
        r@ == image_path_prefix() + id@ + tail@,
{
    let prefix = String::from_str("s3://boot-images/");
    let with_id = prefix.concat(id.as_str());
    with_id.concat(tail)
}

/// Boot parameters of `hosts` rebuilt to boot image `id`.
pub fn boot_parameters_for(hosts: Vec<String>, id: &String) -> (r: BootParameters)
    ensures
        r.hosts == hosts,
        r.kernel@ == kernel_path(id@),
        r.initrd@ == initrd_path(id@),
        r.params@ == command_line(id@),
{
    let kernel = image_artifact_path(id, "/kernel");
    let initrd = image_artifact_path(id, "/initrd");
    let base = String::from_str(
        "console=ttyS0,115200 bad_page=panic crashkernel=360M hugepagelist=2m-2g intel_iommu=off intel_pstate=disable iommu.passthrough=on numa_interleave_omit=headless oops=panic pageblock_order=14 rd.neednet=1 rd.retry=10 rd.shell ip=nmn0:dhcp quiet",
    );
    let with_root = base.concat(" root=craycps-s3:");
    let params = with_root.concat(image_artifact_path(id, "/rootfs").as_str());
    BootParameters { hosts, kernel, initrd, params }
}

/// What the planner decided for a node set.
pub struct BootPlan {
    /// The target image differs from the booted one: the nodes must restart.
    pub needs_restart: bool,
    /// The boot parameters to write, present exactly when a restart is needed.
    pub updated: Option<BootParameters>,
}

/// A restart is needed exactly when the target image is not the one booted.
pub open spec fn restart_needed(current: BootParameters, target: Seq<char>) -> bool {
    booted_image(current) != Some(target)
}

/// Compares the booted image with the target image and, when they differ,
/// builds the boot parameters that boot the target.
pub fn plan_boot(current: BootParameters, target_image_id: &String) -> (r: BootPlan)
    ensures
        r.needs_restart == restart_needed(current, target_image_id@),
        r.updated is Some <==> r.needs_restart,
        r.updated is Some ==> r.updated->0.hosts == current.hosts,
        r.updated is Some ==> r.updated->0.kernel@ == kernel_path(target_image_id@),
        r.updated is Some ==> r.updated->0.initrd@ == initrd_path(target_image_id@),
        r.updated is Some ==> r.updated->0.params@ == command_line(target_image_id@),
{
    let same = match current_boot_image(&current) {
        Some(id) => id == *target_image_id,
        None => false,
    };
    if same {
        BootPlan { needs_restart: false, updated: None }
    } else {
        let updated = boot_parameters_for(current.hosts, target_image_id);
        BootPlan { needs_restart: true, updated: Some(updated) }
    }
}

} // verus!
