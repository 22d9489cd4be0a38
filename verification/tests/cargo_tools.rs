use tlib::cargo_tools::{CargoPackageInfo, CargoPackageVersion, CargoProfile};

#[test]
fn package_version_parts() {
    let v = CargoPackageVersion::new(1, 2, 3, "beta");
    assert_eq!(v.major(), 1);
    assert_eq!(v.minor(), 2);
    assert_eq!(v.patch(), 3);
    assert_eq!(v.pre_release(), "beta");
    assert_eq!(v, CargoPackageVersion::new(1, 2, 3, "beta"));
    assert_ne!(v, CargoPackageVersion::new(1, 2, 3, ""));
}

#[test]
fn package_info_parts() {
    let v = CargoPackageVersion::new(0, 4, 1, "");
    let info = CargoPackageInfo::new(v, "tools", "A. Author", "Some tools", "home", "repo");
    assert_eq!(info.version(), v);
    assert_eq!(info.name(), "tools");
    assert_eq!(info.authors(), "A. Author");
    assert_eq!(info.description(), "Some tools");
    assert_eq!(info.homepage(), "home");
    assert_eq!(info.repository(), "repo");
}

#[test]
fn profiles_differ() {
    assert_ne!(CargoProfile::Debug, CargoProfile::Release);
}
