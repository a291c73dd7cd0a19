//! Token usage and its cost, from a per-model price table.
use vstd::prelude::*;
use crate::json::same_text;

verus! {

/// Token counts reported by a backend. An absent count is unknown, not zero.
#[derive(Debug, Clone, Copy, PartialEq, Eq, Structural)]
pub struct Usage {
    pub input_tokens: Option<u64>,
    pub output_tokens: Option<u64>,
    pub total_tokens: Option<u64>,
}

impl Usage {
    /// Usage with the given counts.
    pub fn new(
        input_tokens: Option<u64>,
        output_tokens: Option<u64>,
        total_tokens: Option<u64>,
    ) -> (r: Usage)
        ensures
            r == (Usage { input_tokens, output_tokens, total_tokens }),
    {
        Usage { input_tokens, output_tokens, total_tokens }
    }
}

impl Default for Usage {
    /// Usage with every count unknown.
    fn default() -> (r: Usage)
        ensures
            r == (Usage { input_tokens: None, output_tokens: None, total_tokens: None }),
    {
        Usage { input_tokens: None, output_tokens: None, total_tokens: None }
    }
}

/// The price of one token of a model, in billionths of a dollar.
#[derive(Debug, Clone, Copy, PartialEq, Eq, Structural)]
pub struct ModelPricing {
    pub input_nanodollars: u32,
    pub output_nanodollars: u32,
}

/// An exact amount of money, in billionths of a dollar.
#[derive(Debug, Clone, Copy, PartialEq, Eq, Structural)]
pub struct Cost {
    pub nanodollars: u128,
}

/// The price table: the price of each listed model, by its identifier.
pub open spec fn price_of(model: Seq<char>) -> Option<ModelPricing> {
    if model == "gpt-4o"@ {
        Some(ModelPricing { input_nanodollars: 2500, output_nanodollars: 10000 })
    } else if model == "gpt-4o-mini"@ {
        Some(ModelPricing { input_nanodollars: 150, output_nanodollars: 600 })
    } else if model == "gpt-4-turbo"@ {
        Some(ModelPricing { input_nanodollars: 10000, output_nanodollars: 30000 })
    } else if model == "gpt-3.5-turbo"@ {
        Some(ModelPricing { input_nanodollars: 500, output_nanodollars: 1500 })
    } else if model == "o1"@ {
        Some(ModelPricing { input_nanodollars: 15000, output_nanodollars: 60000 })
    } else if model == "o1-mini"@ {
        Some(ModelPricing { input_nanodollars: 3000, output_nanodollars: 12000 })
    } else if model == "gpt-4o-2024-08-06"@ {
        Some(ModelPricing { input_nanodollars: 2500, output_nanodollars: 10000 })
    } else if model == "gpt-4o-mini-2024-07-18"@ {
        Some(ModelPricing { input_nanodollars: 150, output_nanodollars: 600 })
    } else {
        None
    }
}

/// The listed price of `model`, or `None` for a model the table does not list.
pub fn model_pricing_for(model: &str) -> (r: Option<ModelPricing>)
    ensures
        r == price_of(model@),
{
    if same_text(model, "gpt-4o") {
        Some(ModelPricing { input_nanodollars: 2500, output_nanodollars: 10000 })
    } else if same_text(model, "gpt-4o-mini") {
        Some(ModelPricing { input_nanodollars: 150, output_nanodollars: 600 })
    } else if same_text(model, "gpt-4-turbo") {
        Some(ModelPricing { input_nanodollars: 10000, output_nanodollars: 30000 })
    } else if same_text(model, "gpt-3.5-turbo") {
        Some(ModelPricing { input_nanodollars: 500, output_nanodollars: 1500 })
    } else if same_text(model, "o1") {
        Some(ModelPricing { input_nanodollars: 15000, output_nanodollars: 60000 })
    } else if same_text(model, "o1-mini") {
        Some(ModelPricing { input_nanodollars: 3000, output_nanodollars: 12000 })
    } else if same_text(model, "gpt-4o-2024-08-06") {
        Some(ModelPricing { input_nanodollars: 2500, output_nanodollars: 10000 })
    } else if same_text(model, "gpt-4o-mini-2024-07-18") {
        Some(ModelPricing { input_nanodollars: 150, output_nanodollars: 600 })
    } else {
        None
    }
}

/// The cost of `usage` at `pricing`, in billionths of a dollar: unknown when
/// the price is unknown or a count it needs is absent.
pub open spec fn cost_of(usage: Usage, pricing: Option<ModelPricing>) -> Option<int> {
    match (pricing, usage.input_tokens, usage.output_tokens) {
        (Some(p), Some(i), Some(o)) => Some(
            i * p.input_nanodollars + o * p.output_nanodollars,
        ),
        _ => None,
    }
}

/// The exact cost of `usage` at `pricing`.
pub fn cost(usage: &Usage, pricing: &Option<ModelPricing>) -> (r: Option<Cost>)
    ensures
        match cost_of(*usage, *pricing) {
            Some(c) => r is Some && r.unwrap().nanodollars == c,
            None => r is None,
        },
{
    match (pricing, usage.input_tokens, usage.output_tokens) {
        (Some(p), Some(i), Some(o)) => {
            let i = i as u128;
            let o = o as u128;
            let pi = p.input_nanodollars as u128;
            let po = p.output_nanodollars as u128;
            assert(i * pi <= 0x1_0000_0000_0000_0000 * 0x1_0000_0000) by (nonlinear_arith)
                requires
                    i < 0x1_0000_0000_0000_0000,
                    pi < 0x1_0000_0000,
            ;
            assert(o * po <= 0x1_0000_0000_0000_0000 * 0x1_0000_0000) by (nonlinear_arith)
                requires
                    o < 0x1_0000_0000_0000_0000,
                    po < 0x1_0000_0000,
            ;
            let a = i * pi;
            let b = o * po;
            Some(Cost { nanodollars: a + b })
        },
        _ => None,
    }
}

/// Usage as one backend reported it, with the model that answered and the
/// cost when it is known.
#[derive(Debug)]
pub struct ProviderUsage {
    pub model: String,
    pub usage: Usage,
    pub cost: Option<Cost>,
}

impl ProviderUsage {
    /// Usage of `model`, priced from the table.
    pub fn new(model: String, usage: Usage) -> (r: ProviderUsage)
        ensures
            r.model@ == model@,
            r.usage == usage,
            match cost_of(usage, price_of(model@)) {
                Some(c) => r.cost is Some && r.cost.unwrap().nanodollars == c,
                None => r.cost is None,
            },
    {
        let pricing = model_pricing_for(model.as_str());
        let c = cost(&usage, &pricing);
        ProviderUsage { model, usage, cost: c }
    }
}

} // verus!
