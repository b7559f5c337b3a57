//! Docker artifacts: dangling images and exited containers, as found by
//! listing them through the Docker API.
use vstd::prelude::*;
use crate::domain::traits::{ArtifactType, CleanupCategory, ScanResult};

verus! {

/// One listed image: its id and its size in bytes as the API reports it.
#[derive(Clone, Debug)]
pub struct ImageListing {
    pub id: String,
    pub size: i64,
}

/// Scanner for Docker artifacts (dangling images, exited containers).
#[derive(Clone, Copy, Debug)]
pub struct DockerScanner;

/// The result for a dangling image: a cache of the reported size.
pub open spec fn image_result(img: ImageListing) -> ScanResult {
    ScanResult {
        path: img.id,
        size_bytes: img.size as u64,
        category: CleanupCategory::Cache,
        artifact_type: ArtifactType::DockerImage(img.id),
    }
}

/// The result for an exited container: a temporary artifact whose size is
/// not measured.
pub open spec fn container_result(id: String) -> ScanResult {
    ScanResult {
        path: id,
        size_bytes: 0,
        category: CleanupCategory::Temp,
        artifact_type: ArtifactType::DockerContainer(id),
    }
}

/// The results for the listed images: those of positive size, in order.
pub open spec fn image_results(imgs: Seq<ImageListing>) -> Seq<ScanResult>
    decreases imgs.len(),
{
    if imgs.len() == 0 {
        seq![]
    } else {
        let rest = image_results(imgs.drop_last());
        if imgs.last().size > 0 {
            rest.push(image_result(imgs.last()))
        } else {
            rest
        }
    }
}

/// The results for the listed containers: those with an id, in order.
pub open spec fn container_results(ids: Seq<Option<String>>) -> Seq<ScanResult>
    decreases ids.len(),
{
    if ids.len() == 0 {
        seq![]
    } else {
        let rest = container_results(ids.drop_last());
        match ids.last() {
            Some(id) => rest.push(container_result(id)),
            None => rest,
        }
    }
}

/// The elements of an optional list.
pub open spec fn opt_seq<T>(o: Option<Vec<T>>) -> Option<Seq<T>> {
    match o {
        Some(v) => Some(v@),
        None => None,
    }
}

/// The results of a Docker scan: the dangling images, then the exited
/// containers; a listing that failed (`None`) contributes nothing.
pub open spec fn docker_results(
    images: Option<Seq<ImageListing>>,
    containers: Option<Seq<Option<String>>>,
) -> Seq<ScanResult> {
    (match images {
        Some(i) => image_results(i),
        None => seq![],
    }) + (match containers {
        Some(c) => container_results(c),
        None => seq![],
    })
}

impl DockerScanner {
    /// The scan results for the listings the Docker API gave: `images`
    /// (dangling ones) and the ids of `containers` (exited ones), `None`
    /// where a listing failed.
    pub fn results_from(
        &self,
        images: Option<Vec<ImageListing>>,
        containers: Option<Vec<Option<String>>>,
    ) -> (r: Vec<ScanResult>)
        ensures
            r@ == docker_results(opt_seq(images), opt_seq(containers)),
    {
        let mut out: Vec<ScanResult> = Vec::new();
        let ghost iv = opt_seq(images);
        if let Some(imgs) = &images {
            let n = imgs.len();
            for i in 0..n
                invariant
                    n == imgs@.len(),
                    out@ == image_results(imgs@.take(i as int)),
            {
                assert(imgs@.take(i + 1).drop_last() =~= imgs@.take(i as int));
                let img = &imgs[i];
                if img.size > 0 {
                    out.push(
                        ScanResult {
                            path: img.id.clone(),
                            size_bytes: img.size as u64,
                            category: CleanupCategory::Cache,
                            artifact_type: ArtifactType::DockerImage(img.id.clone()),
                        },
                    );
                }
            }
            assert(imgs@.take(n as int) =~= imgs@);
        }
        let ghost first = out@;
        assert(first == match iv {
            Some(i) => image_results(i),
            None => seq![],
        });
        if let Some(cs) = &containers {
            let n = cs.len();
            for i in 0..n
                invariant
                    n == cs@.len(),
                    out@ == first + container_results(cs@.take(i as int)),
            {
                assert(cs@.take(i + 1).drop_last() =~= cs@.take(i as int));
                match &cs[i] {
                    Some(id) => {
                        out.push(
                            ScanResult {
                                path: id.clone(),
                                size_bytes: 0,
                                category: CleanupCategory::Temp,
                                artifact_type: ArtifactType::DockerContainer(id.clone()),
                            },
                        );
                    },
                    None => {},
                }
                assert(out@ =~= first + container_results(cs@.take(i + 1)));
            }
            assert(cs@.take(n as int) =~= cs@);
        } else {
            assert(out@ =~= first + Seq::<ScanResult>::empty());
        }
        out
    }
}

} // verus!
