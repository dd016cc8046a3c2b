//! Region orders: turning a rectangular selection into queued jobs.
//!
//! The input layer picks two corner tiles and a selection kind; these
//! functions read the feature layer and append one job per qualifying
//! tile, columns left to right and each column bottom-up, exactly as the
//! contracts' recursive sequences state.

use vstd::prelude::*;

use crate::features::Features;
use crate::jobs::{Job, JobQueue, Jobs};
use crate::map::GridMap;
use crate::tile::TilePos;

verus! {

/// What kind of job a region selection creates.
#[derive(Clone, Copy, Debug, PartialEq, Eq, Structural)]
pub enum JobCreation {
    Chop,
    Build(Features),
    BuildRoom,
}

/// The first corner of an in-progress region selection.
#[derive(Clone, Copy, Debug, PartialEq, Eq, Structural)]
pub struct SelectionStart(pub TilePos);

/// The jobs one column (fixed x, y from `y0` up to `y_end` exclusive)
/// contributes, where `f` names the job a tile gets, if any.
pub open spec fn jobs_in_col(f: spec_fn(int, int) -> Option<Job>, x: int, y0: int, y_end: int)
    -> Seq<Job>
    decreases y_end - y0,
{
    if y0 >= y_end {
        Seq::<Job>::empty()
    } else {
        (match f(x, y0) {
            Some(j) => seq![j],
            None => Seq::<Job>::empty(),
        }) + jobs_in_col(f, x, y0 + 1, y_end)
    }
}

/// The jobs a whole rectangle contributes, column by column.
pub open spec fn jobs_in_rect(
    f: spec_fn(int, int) -> Option<Job>,
    x0: int,
    x_end: int,
    y0: int,
    y_end: int,
) -> Seq<Job>
    decreases x_end - x0,
{
    if x0 >= x_end {
        Seq::<Job>::empty()
    } else {
        jobs_in_col(f, x0, y0, y_end) + jobs_in_rect(f, x0 + 1, x_end, y0, y_end)
    }
}

/// Extending a column by one tile appends that tile's job.
pub proof fn lemma_col_snoc(f: spec_fn(int, int) -> Option<Job>, x: int, y0: int, y: int)
    requires
        y0 <= y,
    ensures
        jobs_in_col(f, x, y0, y + 1) == jobs_in_col(f, x, y0, y) + (match f(x, y) {
            Some(j) => seq![j],
            None => Seq::<Job>::empty(),
        }),
    decreases y - y0,
{
    if y0 == y {
        assert(jobs_in_col(f, x, y + 1, y + 1) =~= Seq::<Job>::empty());
        assert(jobs_in_col(f, x, y0, y) =~= Seq::<Job>::empty());
        assert(jobs_in_col(f, x, y0, y + 1) =~= jobs_in_col(f, x, y0, y) + (match f(x, y) {
            Some(j) => seq![j],
            None => Seq::<Job>::empty(),
        }));
    } else {
        lemma_col_snoc(f, x, y0 + 1, y);
        assert(jobs_in_col(f, x, y0, y + 1) =~= jobs_in_col(f, x, y0, y) + (match f(x, y) {
            Some(j) => seq![j],
            None => Seq::<Job>::empty(),
        }));
    }
}

/// Extending a rectangle by one column appends that column's jobs.
pub proof fn lemma_rect_snoc(
    f: spec_fn(int, int) -> Option<Job>,
    x0: int,
    x: int,
    y0: int,
    y_end: int,
)
    requires
        x0 <= x,
    ensures
        jobs_in_rect(f, x0, x + 1, y0, y_end) == jobs_in_rect(f, x0, x, y0, y_end) + jobs_in_col(
            f,
            x,
            y0,
            y_end,
        ),
    decreases x - x0,
{
    if x0 == x {
        assert(jobs_in_rect(f, x + 1, x + 1, y0, y_end) =~= Seq::<Job>::empty());
        assert(jobs_in_rect(f, x0, x, y0, y_end) =~= Seq::<Job>::empty());
        assert(jobs_in_rect(f, x0, x + 1, y0, y_end) =~= jobs_in_rect(f, x0, x, y0, y_end)
            + jobs_in_col(f, x, y0, y_end));
    } else {
        lemma_rect_snoc(f, x0 + 1, x, y0, y_end);
        assert(jobs_in_rect(f, x0, x + 1, y0, y_end) =~= jobs_in_rect(f, x0, x, y0, y_end)
            + jobs_in_col(f, x, y0, y_end));
    }
}

/// Every job a column contributes satisfies whatever `f` guarantees of
/// the jobs it yields on that column.
pub proof fn lemma_col_jobs_from(
    f: spec_fn(int, int) -> Option<Job>,
    x: int,
    y0: int,
    y_end: int,
    k: int,
)
    requires
        0 <= k < jobs_in_col(f, x, y0, y_end).len(),
    ensures
        exists|y: int|
            y0 <= y < y_end && #[trigger] f(x, y) == Some(jobs_in_col(f, x, y0, y_end)[k]),
    decreases y_end - y0,
{
    if y0 < y_end {
        match f(x, y0) {
            Some(j) => {
                if k == 0 {
                    assert(f(x, y0) == Some(jobs_in_col(f, x, y0, y_end)[0]));
                } else {
                    lemma_col_jobs_from(f, x, y0 + 1, y_end, k - 1);
                }
            },
            None => {
                lemma_col_jobs_from(f, x, y0 + 1, y_end, k);
            },
        }
    }
}

/// Every job a rectangle contributes comes from `f` on some tile of it.
pub proof fn lemma_rect_jobs_from(
    f: spec_fn(int, int) -> Option<Job>,
    x0: int,
    x_end: int,
    y0: int,
    y_end: int,
    k: int,
)
    requires
        0 <= k < jobs_in_rect(f, x0, x_end, y0, y_end).len(),
    ensures
        exists|x: int, y: int|
            x0 <= x < x_end && y0 <= y < y_end && #[trigger] f(x, y) == Some(
                jobs_in_rect(f, x0, x_end, y0, y_end)[k],
            ),
    decreases x_end - x0,
{
    if x0 < x_end {
        let c = jobs_in_col(f, x0, y0, y_end);
        if k < c.len() {
            lemma_col_jobs_from(f, x0, y0, y_end, k);
        } else {
            lemma_rect_jobs_from(f, x0 + 1, x_end, y0, y_end, k - c.len());
        }
    }
}

/// The job a tile gets under a chop selection: chop every choppable
/// feature in the rectangle.
pub open spec fn chop_job_at(map: GridMap, x: int, y: int) -> Option<Job> {
    if map.feature_at_spec(x, y) matches Some(ft) && ft.is_choppable_spec() {
        Some(Job { job_type: Jobs::Chop, position: TilePos { x: x as u32, y: y as u32 } })
    } else {
        None
    }
}

/// The job a tile gets under a build selection: build the chosen feature
/// on every tile of the rectangle that has no feature yet.
pub open spec fn build_job_at(map: GridMap, feature: Features, x: int, y: int) -> Option<Job> {
    if map.feature_at_spec(x, y) is None {
        Some(
            Job { job_type: Jobs::Build(feature), position: TilePos { x: x as u32, y: y as u32 } },
        )
    } else {
        None
    }
}

/// The job a tile gets under a room selection: on feature-free tiles,
/// walls around the border and floors inside, with one border tile left
/// open for a doorway (the lowest-left wall column, one step up).
pub open spec fn room_job_at(
    map: GridMap,
    x0: int,
    y0: int,
    x1: int,
    y1: int,
    x: int,
    y: int,
) -> Option<Job> {
    if !(map.feature_at_spec(x, y) is None) {
        None
    } else if x == x0 && y == y0 + 1 {
        None
    } else {
        let f = if x == x0 || y == y0 || x == x1 || y == y1 {
            Features::Wall
        } else {
            Features::Floor
        };
        Some(Job { job_type: Jobs::Build(f), position: TilePos { x: x as u32, y: y as u32 } })
    }
}

/// The inclusive rectangle spanned by two corner tiles.
pub open spec fn rect_of(a: TilePos, b: TilePos) -> (int, int, int, int) {
    (
        if a.x <= b.x {
            a.x as int
        } else {
            b.x as int
        },
        if a.y <= b.y {
            a.y as int
        } else {
            b.y as int
        },
        if a.x <= b.x {
            b.x as int
        } else {
            a.x as int
        },
        if a.y <= b.y {
            b.y as int
        } else {
            a.y as int
        },
    )
}

/// Appends to the queue the job `f` yields for each tile of the
/// inclusive rectangle between the two corners, columns left to right
/// and each column bottom-up.
fn enqueue_rect_jobs(
    job_queue: &mut JobQueue,
    map: &GridMap,
    a: TilePos,
    b: TilePos,
    kind: JobCreation,
)
    requires
        map.wf(),
        map.in_bounds(a.x as int, a.y as int),
        map.in_bounds(b.x as int, b.y as int),
    ensures
        ({
            let (x0, y0, x1, y1) = rect_of(a, b);
            final(job_queue).jobs@ == old(job_queue).jobs@ + jobs_in_rect(
                region_job_fn(*map, kind, x0, y0, x1, y1),
                x0,
                x1 + 1,
                y0,
                y1 + 1,
            )
        }),
{
    let x0: u32 = if a.x <= b.x {
        a.x
    } else {
        b.x
    };
    let x1: u32 = if a.x <= b.x {
        b.x
    } else {
        a.x
    };
    let y0: u32 = if a.y <= b.y {
        a.y
    } else {
        b.y
    };
    let y1: u32 = if a.y <= b.y {
        b.y
    } else {
        a.y
    };
    let ghost f = region_job_fn(*map, kind, x0 as int, y0 as int, x1 as int, y1 as int);
    let ghost q0 = job_queue.jobs@;
    proof {
        assert(job_queue.jobs@ =~= q0 + jobs_in_rect(f, x0 as int, x0 as int, y0 as int, y1 + 1));
    }
    let mut x: u32 = x0;
    while x <= x1
        invariant
            map.wf(),
            x0 <= x <= x1 + 1,
            x1 < map.width,
            y1 < map.height,
            y0 <= y1,
            f == region_job_fn(*map, kind, x0 as int, y0 as int, x1 as int, y1 as int),
            job_queue.jobs@ == q0 + jobs_in_rect(f, x0 as int, x as int, y0 as int, y1 + 1),
        decreases x1 + 1 - x,
    {
        let mut y: u32 = y0;
        proof {
            assert(job_queue.jobs@ =~= q0 + jobs_in_rect(f, x0 as int, x as int, y0 as int, y1 + 1)
                + jobs_in_col(f, x as int, y0 as int, y0 as int));
        }
        while y <= y1
            invariant
                map.wf(),
                x0 <= x <= x1,
                y0 <= y <= y1 + 1,
                x1 < map.width,
                y1 < map.height,
                f == region_job_fn(*map, kind, x0 as int, y0 as int, x1 as int, y1 as int),
                job_queue.jobs@ == q0 + jobs_in_rect(f, x0 as int, x as int, y0 as int, y1 + 1)
                    + jobs_in_col(f, x as int, y0 as int, y as int),
            decreases y1 + 1 - y,
        {
            let job = region_job_exec(map, kind, x0, y0, x1, y1, x, y);
            proof {
                lemma_col_snoc(f, x as int, y0 as int, y as int);
            }
            match job {
                Some(j) => {
                    job_queue.enqueue(j);
                    proof {
                        assert(job_queue.jobs@ =~= q0 + jobs_in_rect(
                            f,
                            x0 as int,
                            x as int,
                            y0 as int,
                            y1 + 1,
                        ) + jobs_in_col(f, x as int, y0 as int, y + 1));
                    }
                },
                None => {
                    proof {
                        assert(job_queue.jobs@ =~= q0 + jobs_in_rect(
                            f,
                            x0 as int,
                            x as int,
                            y0 as int,
                            y1 + 1,
                        ) + jobs_in_col(f, x as int, y0 as int, y + 1));
                    }
                },
            }
            y = y + 1;
        }
        proof {
            lemma_rect_snoc(f, x0 as int, x as int, y0 as int, y1 + 1);
            assert(job_queue.jobs@ =~= q0 + jobs_in_rect(
                f,
                x0 as int,
                x + 1,
                y0 as int,
                y1 + 1,
            ));
        }
        x = x + 1;
    }
}

/// The per-tile job rule each selection kind uses over a given rectangle.
pub open spec fn region_job_fn(map: GridMap, kind: JobCreation, x0: int, y0: int, x1: int, y1: int)
    -> spec_fn(int, int) -> Option<Job> {
    match kind {
        JobCreation::Chop => |x: int, y: int| chop_job_at(map, x, y),
        JobCreation::Build(feature) => |x: int, y: int| build_job_at(map, feature, x, y),
        JobCreation::BuildRoom => |x: int, y: int| room_job_at(map, x0, y0, x1, y1, x, y),
    }
}

/// The job one tile gets, matching `region_job_fn` exactly.
fn region_job_exec(
    map: &GridMap,
    kind: JobCreation,
    x0: u32,
    y0: u32,
    x1: u32,
    y1: u32,
    x: u32,
    y: u32,
) -> (r: Option<Job>)
    requires
        map.wf(),
        map.in_bounds(x as int, y as int),
        y0 <= y,
    ensures
        r == region_job_fn(*map, kind, x0 as int, y0 as int, x1 as int, y1 as int)(
            x as int,
            y as int,
        ),
{
    match kind {
        JobCreation::Chop => {
            match map.feature_at(x, y) {
                Some(ft) => {
                    if ft.is_choppable() {
                        Some(Job::new(Jobs::Chop, TilePos::new(x, y)))
                    } else {
                        None
                    }
                },
                None => None,
            }
        },
        JobCreation::Build(feature) => {
            match map.feature_at(x, y) {
                Some(_) => None,
                None => Some(Job::new(Jobs::Build(feature), TilePos::new(x, y))),
            }
        },
        JobCreation::BuildRoom => {
            match map.feature_at(x, y) {
                Some(_) => None,
                None => {
                    if x == x0 && y == y0 + 1 {
                        None
                    } else {
                        let f = if x == x0 || y == y0 || x == x1 || y == y1 {
                            Features::Wall
                        } else {
                            Features::Floor
                        };
                        Some(Job::new(Jobs::Build(f), TilePos::new(x, y)))
                    }
                },
            }
        },
    }
}

/// Turns a finished region selection into queued jobs: chop orders on
/// every choppable feature, build orders on every empty tile, or a room
/// of walls and floors with a doorway gap, per `kind`. The jobs append
/// in column-major order of the rectangle.
pub fn handle_job_creation(
    job_queue: &mut JobQueue,
    map: &GridMap,
    kind: JobCreation,
    selection: SelectionStart,
    world_tile: TilePos,
)
    requires
        map.wf(),
        map.in_bounds(selection.0.x as int, selection.0.y as int),
        map.in_bounds(world_tile.x as int, world_tile.y as int),
    ensures
        ({
            let (x0, y0, x1, y1) = rect_of(selection.0, world_tile);
            final(job_queue).jobs@ == old(job_queue).jobs@ + jobs_in_rect(
                region_job_fn(*map, kind, x0, y0, x1, y1),
                x0,
                x1 + 1,
                y0,
                y1 + 1,
            )
        }),
        forall|k: int|
            old(job_queue).jobs@.len() <= k < final(job_queue).jobs@.len() ==> map.in_bounds(
                #[trigger] final(job_queue).jobs@[k].position.x as int,
                final(job_queue).jobs@[k].position.y as int,
            ),
{
    enqueue_rect_jobs(job_queue, map, selection.0, world_tile, kind);
    proof {
        let (x0, y0, x1, y1) = rect_of(selection.0, world_tile);
        let f = region_job_fn(*map, kind, x0, y0, x1, y1);
        assert forall|k: int|
            old(job_queue).jobs@.len() <= k < job_queue.jobs@.len() implies map.in_bounds(
            #[trigger] job_queue.jobs@[k].position.x as int,
            job_queue.jobs@[k].position.y as int,
        ) by {
            let kk = k - old(job_queue).jobs@.len();
            lemma_rect_jobs_from(f, x0, x1 + 1, y0, y1 + 1, kk);
            let (x, y) = choose|x: int, y: int|
                x0 <= x < x1 + 1 && y0 <= y < y1 + 1 && #[trigger] f(x, y) == Some(
                    jobs_in_rect(f, x0, x1 + 1, y0, y1 + 1)[kk],
                );
            assert(job_queue.jobs@[k] == jobs_in_rect(f, x0, x1 + 1, y0, y1 + 1)[kk]);
        }
    }
}

} // verus!
