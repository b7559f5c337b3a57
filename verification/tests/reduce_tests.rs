use dev_purge::domain::reduce::{reduce_scan_results, ReduceOptions};
use dev_purge::domain::traits::{ArtifactType, CleanupCategory, ScanResult};

fn sr(path: &str, bytes: u64) -> ScanResult {
    ScanResult {
        path: path.to_string(),
        size_bytes: bytes,
        category: CleanupCategory::BuildArtifact,
        artifact_type: ArtifactType::Physical,
    }
}

#[test]
fn reduces_descendants_when_parent_selected() {
    let results = vec![sr("C:/p/target", 100), sr("C:/p/target/debug", 50)];
    let reduced = reduce_scan_results(
        results,
        ReduceOptions {
            cargo_out_promotion_min: 99,
        },
    );
    assert_eq!(reduced.len(), 1);
    assert_eq!(reduced[0].path, "C:/p/target".to_string());
}

#[test]
fn promotes_many_cargo_out_dirs_to_build_dir() {
    let mut results = Vec::new();
    for i in 0..10 {
        results.push(sr(&format!("C:/t/target/debug/build/crate{i}/out"), 10));
    }

    let reduced = reduce_scan_results(
        results,
        ReduceOptions {
            cargo_out_promotion_min: 8,
        },
    );

    assert_eq!(reduced.len(), 1);
    assert_eq!(reduced[0].path, "C:/t/target/debug/build".to_string());
}
