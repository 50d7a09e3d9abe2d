use vstd::prelude::*;

use crate::error::Error;

verus! {

/// Tile size used when inference runs on the CPU and no override is given.
pub const CPU_TILE_SIZE: i32 = 400;

/// Smallest tile handed to the native engine when the heap budget is tight.
pub const MIN_TILE_SIZE: i32 = 32;

/// Border pixels added around each tile before inference, by scale.
/// Meaningful only for scales 2, 3 and 4.
pub open spec fn prepadding_for(scale: int) -> int {
    if scale == 2 {
        18
    } else if scale == 3 {
        14
    } else {
        19
    }
}

/// Prepadding by scale: the exact table 2 -> 18, 3 -> 14, 4 -> 19.
/// Every other scale is rejected.
pub fn calculate_prepadding(scale: i32) -> (r: Result<i32, Error>)
    ensures
        scale == 2 || scale == 3 || scale == 4 ==> r == Ok::<i32, Error>(
            prepadding_for(scale as int) as i32,
        ),
        !(scale == 2 || scale == 3 || scale == 4) ==> r == Err::<i32, Error>(
            Error::InvalidScale { scale },
        ),
{
    match scale {
        2 => Ok(18),
        3 => Ok(14),
        4 => Ok(19),
        _ => Err(Error::InvalidScale { scale }),
    }
}

/// The largest tile the reported heap budget affords, per scale.
/// Larger tiles reduce per-tile overhead but need proportionally more
/// device memory, so each scale has its own descending threshold table.
/// For scale 3 the 400-pixel tile cuts in above a budget of 3300.
/// Scales outside `{2, 3, 4}` fall through to the minimum tile.
pub open spec fn tile_for_budget(scale: int, budget: int) -> int {
    if scale == 2 {
        if budget > 1300 {
            400
        } else if budget > 800 {
            300
        } else if budget > 200 {
            100
        } else {
            32
        }
    } else if scale == 3 {
        if budget > 3300 {
            400
        } else if budget > 1900 {
            300
        } else if budget > 950 {
            200
        } else if budget > 320 {
            100
        } else {
            32
        }
    } else if scale == 4 {
        if budget > 1690 {
            400
        } else if budget > 980 {
            300
        } else if budget > 530 {
            200
        } else if budget > 240 {
            100
        } else {
            32
        }
    } else {
        32
    }
}

/// Tile-size selection: a nonzero requested value always wins verbatim;
/// the CPU sentinel (device -1) gets the fixed CPU tile; otherwise the
/// device's reported heap budget picks the largest affordable tile from
/// the per-scale threshold table.
pub fn calculate_tile_size(tile_size: i32, scale: i32, gpu: i32, heap_budget: u32) -> (r: i32)
    ensures
        tile_size != 0 ==> r == tile_size,
        tile_size == 0 && gpu == -1 ==> r == CPU_TILE_SIZE,
        tile_size == 0 && gpu != -1 ==> r == tile_for_budget(scale as int, heap_budget as int),
{
    if tile_size != 0 {
        return tile_size;
    }
    if gpu == -1 {
        return CPU_TILE_SIZE;
    }
    tile_size_from_budget(scale, heap_budget)
}

/// The budget-table lookup alone, for callers that have already settled
/// the override and the device question.
pub fn tile_size_from_budget(scale: i32, heap_budget: u32) -> (r: i32)
    ensures
        r == tile_for_budget(scale as int, heap_budget as int),
{
    match scale {
        2 => {
            if heap_budget > 1300 {
                400
            } else if heap_budget > 800 {
                300
            } else if heap_budget > 200 {
                100
            } else {
                MIN_TILE_SIZE
            }
        },
        3 => {
            if heap_budget > 3300 {
                400
            } else if heap_budget > 1900 {
                300
            } else if heap_budget > 950 {
                200
            } else if heap_budget > 320 {
                100
            } else {
                MIN_TILE_SIZE
            }
        },
        4 => {
            if heap_budget > 1690 {
                400
            } else if heap_budget > 980 {
                300
            } else if heap_budget > 530 {
                200
            } else if heap_budget > 240 {
                100
            } else {
                MIN_TILE_SIZE
            }
        },
        _ => MIN_TILE_SIZE,
    }
}

/// Sync-gap resolution: the configured level stands unless the model
/// family disallows tuning it, in which case the gap is forced to 0.
pub fn resolve_sync_gap(allow_sync_gap: bool, configured: i32) -> (r: i32)
    ensures
        r == (if allow_sync_gap {
            configured
        } else {
            0
        }),
{
    if allow_sync_gap {
        configured
    } else {
        0
    }
}

} // verus!
