//! Tests of path and name derivation.

use wdk_packager::model::CpuArchitecture;
use wdk_packager::model::DriverConfig;
use wdk_packager::model::KmdfConfig;
use wdk_packager::model::UmdfConfig;
use wdk_packager::task::PackageTask;
use wdk_packager::task::PackageTaskParams;

fn kmdf_1_33() -> DriverConfig {
    DriverConfig::Kmdf(KmdfConfig {
        kmdf_version_major: 1,
        target_kmdf_version_minor: 33,
        minimum_kmdf_version_minor: None,
    })
}

fn sample_params(arch: CpuArchitecture, model: DriverConfig) -> PackageTaskParams {
    PackageTaskParams {
        package_name: b"sample-driver".to_vec(),
        working_dir: b"C:\\src\\drv".to_vec(),
        target_dir: b"C:\\src\\drv\\target\\debug".to_vec(),
        target_arch: arch,
        verify_signature: true,
        driver_model: model,
    }
}

#[test]
fn hyphens_become_underscores_in_every_path() {
    let task = PackageTask::new(&sample_params(CpuArchitecture::Amd64, kmdf_1_33()));
    assert_eq!(task.package_name, b"sample_driver".to_vec());
    assert_eq!(
        task.src_inx_file_path,
        b"C:\\src\\drv\\sample_driver.inx".to_vec()
    );
    assert_eq!(
        task.src_driver_binary_file_path,
        b"C:\\src\\drv\\target\\debug\\sample_driver.dll".to_vec()
    );
    assert_eq!(
        task.src_renamed_driver_binary_file_path,
        b"C:\\src\\drv\\target\\debug\\sample_driver.sys".to_vec()
    );
    assert_eq!(
        task.src_pdb_file_path,
        b"C:\\src\\drv\\target\\debug\\sample_driver.pdb".to_vec()
    );
    assert_eq!(
        task.src_map_file_path,
        b"C:\\src\\drv\\target\\debug\\deps\\sample_driver.map".to_vec()
    );
    assert_eq!(
        task.src_cert_file_path,
        b"C:\\src\\drv\\target\\debug\\WDRLocalTestCert.cer".to_vec()
    );
    let root = b"C:\\src\\drv\\target\\debug\\sample_driver_package".to_vec();
    assert_eq!(task.dest_root_package_folder, root);
    assert_eq!(
        task.dest_inf_file_path,
        b"C:\\src\\drv\\target\\debug\\sample_driver_package\\sample_driver.inf".to_vec()
    );
    assert_eq!(
        task.dest_driver_binary_path,
        b"C:\\src\\drv\\target\\debug\\sample_driver_package\\sample_driver.sys".to_vec()
    );
    assert_eq!(
        task.dest_pdb_file_path,
        b"C:\\src\\drv\\target\\debug\\sample_driver_package\\sample_driver.pdb".to_vec()
    );
    assert_eq!(
        task.dest_map_file_path,
        b"C:\\src\\drv\\target\\debug\\sample_driver_package\\sample_driver.map".to_vec()
    );
    assert_eq!(
        task.dest_cert_file_path,
        b"C:\\src\\drv\\target\\debug\\sample_driver_package\\WDRLocalTestCert.cer".to_vec()
    );
    assert_eq!(
        task.dest_cat_file_path,
        b"C:\\src\\drv\\target\\debug\\sample_driver_package\\sample_driver.cat".to_vec()
    );
    assert_eq!(task.cert_store_name, b"WDRTestCertStore".to_vec());
    assert_eq!(task.cert_name, b"WDRLocalTestCert".to_vec());
}

#[test]
fn binary_extension_follows_the_driver_model_alone() {
    for arch in [CpuArchitecture::Amd64, CpuArchitecture::Arm64] {
        let kmdf = PackageTask::new(&sample_params(arch, kmdf_1_33()));
        assert!(kmdf.dest_driver_binary_path.ends_with(b".sys"));
        let wdm = PackageTask::new(&sample_params(arch, DriverConfig::Wdm));
        assert!(wdm.dest_driver_binary_path.ends_with(b".sys"));
        let umdf = PackageTask::new(&sample_params(
            arch,
            DriverConfig::Umdf(UmdfConfig {
                umdf_version_major: 2,
                target_umdf_version_minor: 15,
                minimum_umdf_version_minor: None,
            }),
        ));
        assert!(umdf.dest_driver_binary_path.ends_with(b".dll"));
        assert!(umdf.src_driver_binary_file_path.ends_with(b".dll"));
        assert!(umdf
            .src_renamed_driver_binary_file_path
            .ends_with(b".dll"));
    }
}

#[test]
fn os_mapping_is_exactly_one_of_two_strings() {
    let amd = PackageTask::new(&sample_params(CpuArchitecture::Amd64, kmdf_1_33()));
    assert_eq!(amd.os_mapping, b"10_x64".to_vec());
    let arm = PackageTask::new(&sample_params(CpuArchitecture::Arm64, kmdf_1_33()));
    assert_eq!(arm.os_mapping, b"Server10_arm64".to_vec());
}

#[test]
fn a_name_without_hyphens_is_kept_as_it_is() {
    let mut params = sample_params(CpuArchitecture::Amd64, kmdf_1_33());
    params.package_name = b"plain_name".to_vec();
    let task = PackageTask::new(&params);
    assert_eq!(task.package_name, b"plain_name".to_vec());
}
