//! Data of the hardware domain and its thermal classification.
use vstd::prelude::*;

verus! {

/// Traffic counters of one network interface.
#[derive(Clone, Debug, PartialEq, Eq)]
pub struct NetworkInfo {
    pub interface_name: String,
    pub bytes_received: u64,
    pub bytes_transmitted: u64,
    pub packets_received: u64,
    pub packets_transmitted: u64,
    pub errors_received: u64,
    pub errors_transmitted: u64,
    pub is_up: bool,
    pub speed: Option<u64>,
}

/// Thermal state of the machine.
#[derive(Clone, Copy, Debug, PartialEq, Eq, Hash, Structural)]
pub enum ThermalState {
    Optimal,
    Warm,
    Hot,
    Critical,
}

/// Power mode of the machine.
#[derive(Clone, Copy, Debug, PartialEq, Eq, Hash, Structural)]
pub enum PowerState {
    Normal,
    PowerSaving,
    HighPerformance,
    Critical,
}

/// Risk of a predicted hardware failure.
#[derive(Clone, Copy, Debug, PartialEq, Eq, Hash, Structural)]
pub enum RiskLevel {
    Low,
    Medium,
    High,
    Critical,
}

/// Commands understood by the hardware domain.
#[derive(Clone, Debug, PartialEq, Eq)]
pub enum HardwareCommand {
    GetHardwareInfo,
    GetThermalStatus,
    GetPowerStatus,
    PredictFailures,
    OptimizePerformance,
    SetPowerMode(PowerState),
    GetComponentHealth(String),
}

/// Thermal state for the hottest measured temperature, in tenths of a
/// degree Celsius: Optimal below 60, Warm below 75, Hot below 85, Critical
/// from 85 on.
pub open spec fn thermal_state_for(max_temp: i32) -> ThermalState {
    if max_temp < 600 {
        ThermalState::Optimal
    } else if max_temp < 750 {
        ThermalState::Warm
    } else if max_temp < 850 {
        ThermalState::Hot
    } else {
        ThermalState::Critical
    }
}

/// Hottest of `temps`, or 0 when all are below zero or there are none.
pub open spec fn hottest(temps: Seq<i32>) -> i32
    decreases temps.len(),
{
    if temps.len() == 0 {
        0
    } else if temps.last() > hottest(temps.drop_last()) {
        temps.last()
    } else {
        hottest(temps.drop_last())
    }
}

/// A tuning step the optimizer applies.
#[derive(Clone, Copy, Debug, PartialEq, Eq, Hash, Structural)]
pub enum HardwareOptimization {
    RebalanceCpuLoad,
    OptimizeMemory,
    AdjustThermalProfile,
}

/// Tuning steps for an average CPU use (hundredths of a percent), a memory
/// pressure (thousandths) and a CPU temperature (tenths of a degree): CPU
/// above 80%, pressure above 0.7, temperature above 75 degrees.
pub open spec fn optimizations_for(
    average_cpu_usage: u32,
    memory_pressure: u32,
    cpu_temperature: Option<i32>,
) -> Seq<HardwareOptimization> {
    let a = if average_cpu_usage > 8000 {
        seq![HardwareOptimization::RebalanceCpuLoad]
    } else {
        Seq::empty()
    };
    let b = if memory_pressure > 700 {
        a.push(HardwareOptimization::OptimizeMemory)
    } else {
        a
    };
    match cpu_temperature {
        Some(t) => if t > 750 {
            b.push(HardwareOptimization::AdjustThermalProfile)
        } else {
            b
        },
        None => b,
    }
}

/// Tunes the machine from its hardware readings.
pub struct HardwareOptimizer {}

impl HardwareOptimizer {
    pub fn new() -> (r: Self) {
        HardwareOptimizer {  }
    }

    /// The tuning steps the readings call for; none when all is well.
    pub fn optimize(
        &self,
        average_cpu_usage: u32,
        memory_pressure: u32,
        cpu_temperature: Option<i32>,
    ) -> (r: Vec<HardwareOptimization>)
        ensures
            r@ == optimizations_for(average_cpu_usage, memory_pressure, cpu_temperature),
    {
        let mut steps: Vec<HardwareOptimization> = Vec::new();
        if average_cpu_usage > 8000 {
            steps.push(HardwareOptimization::RebalanceCpuLoad);
        }
        if memory_pressure > 700 {
            steps.push(HardwareOptimization::OptimizeMemory);
        }
        match cpu_temperature {
            Some(t) => {
                if t > 750 {
                    steps.push(HardwareOptimization::AdjustThermalProfile);
                }
            },
            None => {},
        }
        proof {
            assert(steps@ =~= optimizations_for(average_cpu_usage, memory_pressure, cpu_temperature));
        }
        steps
    }
}

/// Readings of one disk: its name and its use in hundredths of a percent.
pub struct DiskUsage {
    pub name: String,
    pub usage: u32,
}

/// Hardware readings that the failure predictor looks at.
pub struct HardwareSample {
    /// In tenths of a degree Celsius.
    pub cpu_temperature: Option<i32>,
    /// In thousandths.
    pub memory_pressure: u32,
    pub disks: Vec<DiskUsage>,
}

/// The component a prediction is about.
#[derive(Clone, Debug, PartialEq, Eq)]
pub enum FailingComponent {
    Cpu,
    Memory,
    Disk(String),
}

/// A predicted hardware failure.
#[derive(Clone, Debug, PartialEq, Eq)]
pub struct FailurePrediction {
    pub component: FailingComponent,
    pub risk_level: RiskLevel,
    /// In thousandths.
    pub probability: u32,
    /// In seconds.
    pub time_to_failure: Option<u64>,
    /// In thousandths.
    pub confidence: u32,
}

/// Prediction for a CPU at `t` tenths of a degree, above 80 degrees: risk
/// grows linearly to certainty at 100 degrees, time left is an hour per
/// degree below 100.
pub open spec fn cpu_prediction(t: i32) -> FailurePrediction {
    FailurePrediction {
        component: FailingComponent::Cpu,
        risk_level: if t > 900 {
            RiskLevel::Critical
        } else {
            RiskLevel::High
        },
        probability: if t >= 1000 {
            1000
        } else {
            ((t - 800) * 5) as u32
        },
        time_to_failure: Some(
            if t >= 1000 {
                0
            } else {
                ((1000 - t) * 360) as u64
            },
        ),
        confidence: 850,
    }
}

/// Prediction for a disk used at `u` hundredths of a percent, above 90%: risk
/// is the share of the last tenth used, time left a day per percent free.
pub open spec fn disk_prediction(name: String, u: u32) -> FailurePrediction {
    FailurePrediction {
        component: FailingComponent::Disk(name),
        risk_level: if u > 9800 {
            RiskLevel::Critical
        } else {
            RiskLevel::High
        },
        probability: (u - 9000) as u32,
        time_to_failure: Some(
            if u >= 10000 {
                0
            } else {
                ((10000 - u) * 864) as u64
            },
        ),
        confidence: 900,
    }
}

/// Predictions for the disks of `disks`, in order.
pub open spec fn disk_predictions(disks: Seq<DiskUsage>) -> Seq<FailurePrediction>
    decreases disks.len(),
{
    if disks.len() == 0 {
        Seq::empty()
    } else {
        let rest = disk_predictions(disks.drop_last());
        if disks.last().usage > 9000 {
            rest.push(disk_prediction(disks.last().name, disks.last().usage))
        } else {
            rest
        }
    }
}

/// Predictions for a sample: CPU above 80 degrees, memory pressure above
/// 0.8, each disk above 90% use.
pub open spec fn predictions_for(sample: HardwareSample) -> Seq<FailurePrediction> {
    let cpu = match sample.cpu_temperature {
        Some(t) => if t > 800 {
            seq![cpu_prediction(t)]
        } else {
            Seq::empty()
        },
        None => Seq::empty(),
    };
    let mem = if sample.memory_pressure > 800 {
        cpu.push(
            FailurePrediction {
                component: FailingComponent::Memory,
                risk_level: RiskLevel::Medium,
                probability: sample.memory_pressure,
                time_to_failure: None,
                confidence: 750,
            },
        )
    } else {
        cpu
    };
    mem + disk_predictions(sample.disks@)
}

/// A reading past its alarm threshold.
#[derive(Clone, Debug, PartialEq, Eq)]
pub enum HardwareAlert {
    /// CPU temperature above 85 degrees, in tenths of a degree.
    CriticalTemperature(i32),
    /// Memory use above 90%, in hundredths of a percent.
    CriticalMemory(u32),
    /// Disk use above 95%, in hundredths of a percent.
    CriticalDiskSpace(String, u32),
}

/// Alerts for the disks of `disks` used above 95%, in order.
pub open spec fn disk_alerts(disks: Seq<DiskUsage>) -> Seq<HardwareAlert>
    decreases disks.len(),
{
    if disks.len() == 0 {
        Seq::empty()
    } else if disks.last().usage > 9500 {
        disk_alerts(disks.drop_last()).push(
            HardwareAlert::CriticalDiskSpace(disks.last().name, disks.last().usage),
        )
    } else {
        disk_alerts(disks.drop_last())
    }
}

/// Alerts for a CPU temperature (tenths of a degree), a memory use
/// (hundredths of a percent) and disks.
pub open spec fn alerts_for(
    cpu_temperature: Option<i32>,
    memory_usage: u32,
    disks: Seq<DiskUsage>,
) -> Seq<HardwareAlert> {
    let a = match cpu_temperature {
        Some(t) => if t > 850 {
            seq![HardwareAlert::CriticalTemperature(t)]
        } else {
            Seq::empty()
        },
        None => Seq::empty(),
    };
    let b = if memory_usage > 9000 {
        a.push(HardwareAlert::CriticalMemory(memory_usage))
    } else {
        a
    };
    b + disk_alerts(disks)
}

/// Readings past their alarm thresholds: CPU above 85 degrees, memory above
/// 90%, each disk above 95%.
pub fn check_hardware_alerts(cpu_temperature: Option<i32>, memory_usage: u32, disks: &Vec<DiskUsage>) -> (r:
    Vec<HardwareAlert>)
    ensures
        r@ == alerts_for(cpu_temperature, memory_usage, disks@),
{
    let mut alerts: Vec<HardwareAlert> = Vec::new();
    match cpu_temperature {
        Some(t) => {
            if t > 850 {
                alerts.push(HardwareAlert::CriticalTemperature(t));
            }
        },
        None => {},
    }
    if memory_usage > 9000 {
        alerts.push(HardwareAlert::CriticalMemory(memory_usage));
    }
    let ghost head = alerts@;
    let mut i: usize = 0;
    while i < disks.len()
        invariant
            i <= disks@.len(),
            alerts@ == head + disk_alerts(disks@.take(i as int)),
        decreases disks@.len() - i,
    {
        proof {
            assert(disks@.take(i + 1).drop_last() =~= disks@.take(i as int));
        }
        if disks[i].usage > 9500 {
            alerts.push(HardwareAlert::CriticalDiskSpace(disks[i].name.clone(), disks[i].usage));
            proof {
                assert(alerts@ =~= head + disk_alerts(disks@.take(i + 1)));
            }
        }
        i = i + 1;
    }
    proof {
        assert(disks@.take(i as int) =~= disks@);
        assert(alerts@ =~= alerts_for(cpu_temperature, memory_usage, disks@));
    }
    alerts
}

/// Number of samples the predictor keeps.
pub const HISTORY_LIMIT: usize = 100;

/// Predicts hardware failures from recent readings.
pub struct FailurePredictor {
    historical_data: Vec<HardwareSample>,
}

impl FailurePredictor {
    /// Samples kept, oldest first.
    pub closed spec fn history(&self) -> Seq<HardwareSample> {
        self.historical_data@
    }

    /// At most `HISTORY_LIMIT` samples are kept.
    pub closed spec fn wf(&self) -> bool {
        self.historical_data@.len() <= HISTORY_LIMIT
    }

    pub fn new() -> (r: Self)
        ensures
            r.wf(),
            r.history().len() == 0,
    {
        FailurePredictor { historical_data: Vec::new() }
    }

    /// Keeps `sample` among the last `HISTORY_LIMIT` samples and returns the
    /// failures it predicts.
    pub fn analyze(&mut self, sample: HardwareSample) -> (r: Vec<FailurePrediction>)
        requires
            old(self).wf(),
        ensures
            r@ == predictions_for(sample),
            final(self).wf(),
            final(self).history().len() == if old(self).history().len() + 1 > HISTORY_LIMIT as int {
                HISTORY_LIMIT as int
            } else {
                old(self).history().len() + 1int
            },
            final(self).history().last() == sample,
    {
        let mut predictions: Vec<FailurePrediction> = Vec::new();
        match sample.cpu_temperature {
            Some(t) => {
                if t > 800 {
                    let probability: u32 = if t >= 1000 {
                        1000
                    } else {
                        ((t - 800) * 5) as u32
                    };
                    let left: u64 = if t >= 1000 {
                        0
                    } else {
                        ((1000 - t) * 360) as u64
                    };
                    predictions.push(
                        FailurePrediction {
                            component: FailingComponent::Cpu,
                            risk_level: if t > 900 {
                                RiskLevel::Critical
                            } else {
                                RiskLevel::High
                            },
                            probability,
                            time_to_failure: Some(left),
                            confidence: 850,
                        },
                    );
                }
            },
            None => {},
        }
        if sample.memory_pressure > 800 {
            predictions.push(
                FailurePrediction {
                    component: FailingComponent::Memory,
                    risk_level: RiskLevel::Medium,
                    probability: sample.memory_pressure,
                    time_to_failure: None,
                    confidence: 750,
                },
            );
        }
        let ghost head = predictions@;
        let mut i: usize = 0;
        while i < sample.disks.len()
            invariant
                i <= sample.disks@.len(),
                predictions@ == head + disk_predictions(sample.disks@.take(i as int)),
            decreases sample.disks@.len() - i,
        {
            proof {
                assert(sample.disks@.take(i + 1).drop_last() =~= sample.disks@.take(i as int));
            }
            let d = &sample.disks[i];
            if d.usage > 9000 {
                let left: u64 = if d.usage >= 10000 {
                    0
                } else {
                    ((10000 - d.usage) as u64) * 864
                };
                predictions.push(
                    FailurePrediction {
                        component: FailingComponent::Disk(d.name.clone()),
                        risk_level: if d.usage > 9800 {
                            RiskLevel::Critical
                        } else {
                            RiskLevel::High
                        },
                        probability: d.usage - 9000,
                        time_to_failure: Some(left),
                        confidence: 900,
                    },
                );
                proof {
                    assert(predictions@ =~= head + disk_predictions(sample.disks@.take(i + 1)));
                }
            }
            i = i + 1;
        }
        proof {
            assert(sample.disks@.take(i as int) =~= sample.disks@);
            assert(predictions@ =~= predictions_for(sample));
        }
        if self.historical_data.len() >= HISTORY_LIMIT {
            self.historical_data.remove(0);
        }
        self.historical_data.push(sample);
        predictions
    }
}

/// Reads the temperature sensors.
pub struct ThermalMonitor {}

impl ThermalMonitor {
    pub fn new() -> (r: Self) {
        ThermalMonitor {  }
    }

    /// Thermal state for the hottest of the measured temperatures, in tenths
    /// of a degree Celsius.
    pub fn classify(&self, temps: &Vec<i32>) -> (r: ThermalState)
        ensures
            r == thermal_state_for(hottest(temps@)),
    {
        let mut max: i32 = 0;
        let mut i: usize = 0;
        while i < temps.len()
            invariant
                i <= temps@.len(),
                max == hottest(temps@.take(i as int)),
            decreases temps@.len() - i,
        {
            proof {
                assert(temps@.take(i + 1).drop_last() =~= temps@.take(i as int));
            }
            if temps[i] > max {
                max = temps[i];
            }
            i = i + 1;
        }
        proof {
            assert(temps@.take(i as int) =~= temps@);
        }
        if max < 600 {
            ThermalState::Optimal
        } else if max < 750 {
            ThermalState::Warm
        } else if max < 850 {
            ThermalState::Hot
        } else {
            ThermalState::Critical
        }
    }
}

} // verus!
