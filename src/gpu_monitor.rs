use crate::history::{pushed, update_history};
use crate::types::GpuInfo;
use std::collections::VecDeque;
use vstd::prelude::*;
use vstd::string::*;

verus! {

/// GPU sampler. Whether the vendor library could be opened is decided once,
/// when the sampler is built; a failure is kept and reported on every query.
pub struct GpuMonitor {
    init_error: Option<String>,
    gpu_history: VecDeque<Vec<u32>>,
}

/// The first failure among per-device readings, if any.
pub open spec fn first_device_error(devs: Seq<Result<GpuInfo, String>>) -> Option<Seq<char>>
    decreases devs.len(),
{
    if devs.len() == 0 {
        None
    } else {
        match devs[0] {
            Err(e) => Some(e@),
            Ok(_) => first_device_error(devs.drop_first()),
        }
    }
}

/// The devices of readings that all succeeded.
pub open spec fn device_values(devs: Seq<Result<GpuInfo, String>>) -> Seq<GpuInfo> {
    Seq::new(devs.len(), |i: int| devs[i]->Ok_0)
}

/// Utilization of each device, in order.
pub open spec fn utilizations(gpus: Seq<GpuInfo>) -> Seq<u32> {
    Seq::new(gpus.len(), |i: int| gpus[i].utilization)
}

/// Largest utilization of a non-empty list.
pub open spec fn max_utilization(gpus: Seq<GpuInfo>) -> u32
    decreases gpus.len(),
{
    if gpus.len() <= 1 {
        if gpus.len() == 1 {
            gpus[0].utilization
        } else {
            0
        }
    } else {
        let rest = max_utilization(gpus.drop_last());
        if gpus.last().utilization > rest {
            gpus.last().utilization
        } else {
            rest
        }
    }
}

/// All values of a history, frame after frame, widened to `u64`.
pub open spec fn flatten(frames: Seq<Seq<u32>>) -> Seq<u64>
    decreases frames.len(),
{
    if frames.len() == 0 {
        seq![]
    } else {
        flatten(frames.drop_last()) + Seq::new(frames.last().len(), |i: int| frames.last()[i] as u64)
    }
}

/// The device list a query gives: the kept failure without the library; a
/// failed count or the first failed device as an error; an empty list as an
/// error; else the devices.
pub open spec fn gpu_result(
    m: GpuMonitor,
    reading: Result<Vec<Result<GpuInfo, String>>, String>,
    r: Result<Vec<GpuInfo>, String>,
) -> bool {
    &&& !m.available() ==> r is Err && r->Err_0@ == m.cached_error()
    &&& m.available() && reading is Err ==> r is Err && r->Err_0@ == "NVIDIA GPU error: "@
        + reading->Err_0@
    &&& m.available() && reading is Ok && first_device_error(reading->Ok_0@) is Some ==> r is Err
        && r->Err_0@ == "NVIDIA GPU error: "@ + first_device_error(reading->Ok_0@)->Some_0
    &&& m.available() && reading is Ok && first_device_error(reading->Ok_0@) is None
        && reading->Ok_0@.len() == 0 ==> r is Err && r->Err_0@ == "No supported GPUs found"@
    &&& m.available() && reading is Ok && first_device_error(reading->Ok_0@) is None
        && reading->Ok_0@.len() > 0 ==> r is Ok && r->Ok_0@ == device_values(reading->Ok_0@)
}

impl GpuMonitor {
    /// Whether the vendor library was opened.
    pub closed spec fn available(&self) -> bool {
        self.init_error is None
    }

    /// The failure kept from opening the vendor library.
    pub closed spec fn cached_error(&self) -> Seq<char> {
        self.init_error->Some_0@
    }

    /// Utilization history, oldest frame first.
    pub closed spec fn history(&self) -> Seq<Seq<u32>> {
        self.gpu_history@.map_values(|v: Vec<u32>| v@)
    }

    /// A sampler; `init_failure` is the vendor library's error when it could
    /// not be opened.
    pub fn new(init_failure: Option<String>) -> (r: GpuMonitor)
        ensures
            r.available() == init_failure.is_none(),
            init_failure.is_some() ==> r.cached_error() == "NVML initialization failed: "@
                + init_failure->Some_0@,
            r.history().len() == 0,
    {
        let init_error = match init_failure {
            Some(e) => {
                let mut m = String::from_str("NVML initialization failed: ");
                m.append(e.as_str());
                Some(m)
            },
            None => None,
        };
        let r = GpuMonitor { init_error, gpu_history: VecDeque::new() };
        assert(r.history() =~= Seq::<Seq<u32>>::empty());
        r
    }

    /// Whether devices can be queried.
    pub fn is_available(&self) -> (r: bool)
        ensures
            r == self.available(),
    {
        self.init_error.is_none()
    }

    /// The device list of this tick from the readings of each device.
    /// Without the vendor library the kept failure is returned and the
    /// readings are not looked at; a failed count or any failed device fails
    /// the whole list; an empty list is a failure too.
    pub fn get_gpu_info(&self, reading: Result<Vec<Result<GpuInfo, String>>, String>) -> (r: Result<
        Vec<GpuInfo>,
        String,
    >)
        ensures
            gpu_result(*self, reading, r),
    {
        match &self.init_error {
            Some(e) => {
                return Err(e.clone());
            },
            None => {},
        }
        let mut devs = match reading {
            Err(e) => {
                let mut m = String::from_str("NVIDIA GPU error: ");
                m.append(e.as_str());
                return Err(m);
            },
            Ok(d) => d,
        };
        let ghost all = devs@;
        let mut gpus: Vec<GpuInfo> = Vec::new();
        let mut i: usize = 0;
        let total = devs.len();
        assert(all.skip(0) =~= all);
        while i < total
            invariant
                self.init_error is None,
                reading is Ok && all == reading->Ok_0@,
                total == all.len(),
                i <= total,
                devs@ == all.skip(i as int),
                first_device_error(all) == first_device_error(all.skip(i as int)),
                first_device_error(all) is None ==> gpus@ =~= device_values(all.subrange(0, i as int)),
                gpus@.len() == i,
            decreases total - i,
        {
            assert(devs@[0] == all[i as int]);
            assert(all.skip(i as int)[0] == all[i as int]);
            let d = devs.remove(0);
            assert(all.skip(i as int).drop_first() =~= all.skip(i + 1));
            match d {
                Err(e) => {
                    let mut m = String::from_str("NVIDIA GPU error: ");
                    m.append(e.as_str());
                    return Err(m);
                },
                Ok(g) => {
                    gpus.push(g);
                    assert(first_device_error(all) is None ==> gpus@ =~= device_values(
                        all.subrange(0, i + 1),
                    ));
                },
            }
            i = i + 1;
        }
        assert(all.subrange(0, total as int) =~= all);
        if gpus.len() == 0 {
            return Err(String::from_str("No supported GPUs found"));
        }
        Ok(gpus)
    }

    /// Largest utilization among the devices, for the summary gauge; none for
    /// an empty list.
    pub fn get_primary_gpu_utilization(&self, gpus: &Vec<GpuInfo>) -> (r: Option<u32>)
        ensures
            gpus@.len() == 0 ==> r is None,
            gpus@.len() > 0 ==> r == Some(max_utilization(gpus@)),
    {
        if gpus.len() == 0 {
            return None;
        }
        let mut best: u32 = gpus[0].utilization;
        let mut i: usize = 1;
        assert(gpus@.subrange(0, 1).drop_last() =~= Seq::<GpuInfo>::empty());
        while i < gpus.len()
            invariant
                1 <= i <= gpus@.len(),
                best == max_utilization(gpus@.subrange(0, i as int)),
            decreases gpus@.len() - i,
        {
            assert(gpus@.subrange(0, i + 1).drop_last() =~= gpus@.subrange(0, i as int));
            if gpus[i].utilization > best {
                best = gpus[i].utilization;
            }
            i = i + 1;
        }
        assert(gpus@.subrange(0, i as int) =~= gpus@);
        Some(best)
    }

    /// Appends this tick's utilizations to the history and keeps at most
    /// `max_history` frames.
    pub fn update_gpu_history(&mut self, gpus: &Vec<GpuInfo>, max_history: usize)
        ensures
            final(self).history() == pushed(old(self).history(), utilizations(gpus@), max_history as nat),
            final(self).available() == old(self).available(),
            final(self).cached_error() == old(self).cached_error(),
    {
        let mut utils: Vec<u32> = Vec::new();
        let mut i: usize = 0;
        while i < gpus.len()
            invariant
                i <= gpus@.len(),
                utils@ =~= utilizations(gpus@.subrange(0, i as int)),
            decreases gpus@.len() - i,
        {
            utils.push(gpus[i].utilization);
            i = i + 1;
        }
        assert(gpus@.subrange(0, i as int) =~= gpus@);
        let ghost u = utils@;
        update_history(&mut self.gpu_history, utils, max_history);
        assert(self.history() =~= pushed(old(self).history(), u, max_history as nat));
    }

    /// Number of frames in the history.
    pub fn history_len(&self) -> (r: usize)
        ensures
            r == self.history().len(),
    {
        self.gpu_history.len()
    }

    /// All utilizations of the history, frame after frame.
    pub fn get_gpu_history_flat(&self) -> (r: Vec<u64>)
        ensures
            r@ == flatten(self.history()),
    {
        let mut out: Vec<u64> = Vec::new();
        let mut f: usize = 0;
        let ghost h = self.history();
        assert(h.subrange(0, 0) =~= Seq::<Seq<u32>>::empty());
        while f < self.gpu_history.len()
            invariant
                h == self.history(),
                f <= h.len(),
                out@ == flatten(h.subrange(0, f as int)),
            decreases h.len() - f,
        {
            let frame = &self.gpu_history[f];
            assert(frame@ == h[f as int]);
            let ghost start = out@;
            let mut j: usize = 0;
            while j < frame.len()
                invariant
                    j <= frame@.len(),
                    out@ == start + Seq::new(j as nat, |k: int| frame@[k] as u64),
                decreases frame@.len() - j,
            {
                out.push(frame[j] as u64);
                j = j + 1;
                assert(out@ =~= start + Seq::new(j as nat, |k: int| frame@[k] as u64));
            }
            assert(h.subrange(0, f + 1).drop_last() =~= h.subrange(0, f as int));
            assert(out@ =~= flatten(h.subrange(0, f + 1)));
            f = f + 1;
        }
        assert(h.subrange(0, f as int) =~= h);
        out
    }
}

} // verus!
