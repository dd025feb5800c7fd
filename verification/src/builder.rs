//! Choosing and building the parts of a pipeline from its settings.

use vstd::prelude::*;
use crate::config::{copy_pairs, copy_texts, ParserConfig, SinkConfig, TransformerConfig};
use crate::etl_core::parser::AnyParser;
use crate::parsers::json_log::JsonParser;
use crate::parsers::nginx_log::{invalid_pattern_message, nginx_pattern, NginxParser, NGINX_LOG_PATTERN};
use crate::parsers::regex_log::RegexParser;
use crate::pattern::regex_accepts;
use crate::etl_core::transformer::AnyTransformer;
use crate::sink::file::{OutputFormat, OutputFormatView};
use crate::text::text_eq;
use crate::transformers::enrich::EnrichTransformer;
use crate::transformers::filter::{filter_buildable, invalid_rule_message, FilterSpec, FilterTransformer};

verus! {

/// Builds pipelines.
pub struct PipelineBuilder;

/// Which parser to build: the nginx parser (with the user's pattern, where
/// one is given), a JSON parser with its key renamings, or a parser of a
/// pattern and field names.
#[derive(Debug)]
pub enum ParserChoice {
    Nginx { custom_regex: Option<String> },
    Json { field_map: Vec<(String, String)> },
    Regex { pattern: String, fields: Vec<String> },
}

/// The mathematical form of a [`ParserChoice`].
pub enum ParserChoiceView {
    Nginx { custom_regex: Option<Seq<char>> },
    Json { field_map: Seq<(Seq<char>, Seq<char>)> },
    Regex { pattern: Seq<char>, fields: Seq<Seq<char>> },
}

/// The mathematical form of an optional text.
pub open spec fn opt_text(t: Option<String>) -> Option<Seq<char>> {
    match t {
        Some(s) => Some(s@),
        None => None,
    }
}

impl View for ParserChoice {
    type V = ParserChoiceView;

    open spec fn view(&self) -> ParserChoiceView {
        match self {
            ParserChoice::Nginx { custom_regex } => ParserChoiceView::Nginx { custom_regex: opt_text(*custom_regex) },
            ParserChoice::Json { field_map } => ParserChoiceView::Json { field_map: field_map.deep_view() },
            ParserChoice::Regex { pattern, fields } => ParserChoiceView::Regex { pattern: pattern@, fields: fields.deep_view() },
        }
    }
}

/// The parser a parser type names, if it names one (a JSON parser renames no key).
pub open spec fn parser_named(name: Seq<char>) -> Option<ParserChoiceView> {
    if name == "nginx"@ {
        Some(ParserChoiceView::Nginx { custom_regex: None })
    } else if name == "json"@ {
        Some(ParserChoiceView::Json { field_map: Seq::empty() })
    } else {
        None
    }
}

/// The pattern a parser choice matches lines against, if it uses one.
pub open spec fn choice_pattern(c: ParserChoiceView) -> Option<Seq<char>> {
    match c {
        ParserChoiceView::Nginx { custom_regex: Some(p) } => Some(p),
        ParserChoiceView::Nginx { custom_regex: None } => Some(nginx_pattern()),
        ParserChoiceView::Json { .. } => None,
        ParserChoiceView::Regex { pattern, .. } => Some(pattern),
    }
}

/// `p` is the parser that `c` asks for.
pub open spec fn parser_for(c: ParserChoiceView, p: AnyParser) -> bool {
    match c {
        ParserChoiceView::Nginx { .. } => p matches AnyParser::Nginx(n) && Some(n.pattern()) == choice_pattern(c),
        ParserChoiceView::Json { field_map } => p matches AnyParser::Json(j) && j.field_map() == field_map,
        ParserChoiceView::Regex { pattern, fields } => p matches AnyParser::Regex(r) && r.pattern() == pattern
            && r.field_names() == fields,
    }
}

/// The parser a parser configuration asks for.
pub open spec fn choice_of(config: ParserConfig) -> ParserChoiceView {
    match config {
        ParserConfig::Nginx { custom_regex } => ParserChoiceView::Nginx { custom_regex: opt_text(custom_regex) },
        ParserConfig::Json { field_map } => ParserChoiceView::Json { field_map: configured_field_map(field_map) },
        ParserConfig::Regex { pattern, fields } => ParserChoiceView::Regex { pattern: pattern@, fields: fields.deep_view() },
    }
}

/// The key renamings a JSON parser configuration gives (none where it names no map).
pub open spec fn configured_field_map(field_map: Option<Vec<(String, String)>>) -> Seq<(Seq<char>, Seq<char>)> {
    match field_map {
        Some(m) => m.deep_view(),
        None => Seq::empty(),
    }
}

/// The message for an unknown parser type.
pub open spec fn unknown_parser_message(name: Seq<char>) -> Seq<char> {
    "不支持的解析器类型: "@ + name
}

/// The output format a format name names, if it names one.
pub open spec fn format_named(name: Seq<char>) -> Option<OutputFormatView> {
    if name == "json"@ {
        Some(OutputFormatView::Json)
    } else if name == "raw"@ {
        Some(OutputFormatView::Raw)
    } else if name == "csv"@ {
        Some(OutputFormatView::Csv)
    } else {
        None
    }
}

/// A transformer configuration that can be built.
pub open spec fn stage_buildable(config: TransformerConfig) -> bool {
    match config {
        TransformerConfig::Filter { operator, value, .. } => filter_buildable(operator, value@),
        TransformerConfig::Enrich { .. } => true,
    }
}

/// `t` is the transformer built from `config`.
pub open spec fn built_from(config: TransformerConfig, t: AnyTransformer) -> bool {
    match config {
        TransformerConfig::Filter { field, operator, value } => t matches AnyTransformer::Filter(f) && f@ == (FilterSpec {
            field: field@,
            operator,
            value: value@,
        }),
        TransformerConfig::Enrich { field, source_field, enrich_type } => t matches AnyTransformer::Enrich(e) && e.field()
            == field@ && e.source_field() == source_field@ && e.enrich_type() == enrich_type,
    }
}

/// A format name that a file sink knows: `json`, `raw`, `csv` or `delimited`.
pub open spec fn sink_format_known(name: Seq<char>) -> bool {
    format_named(name) is Some || name == "delimited"@
}

/// A sink configuration that can be built: a file in a known format.
pub open spec fn sink_config_supported(config: SinkConfig) -> bool {
    match config {
        SinkConfig::File { format, .. } => sink_format_known(format@),
        SinkConfig::Kafka { .. } => false,
    }
}

/// The message for a `delimited` sink without its delimiter or its fields.
pub open spec fn delimited_needs_message() -> Seq<char> {
    "delimited 输出格式需要配置 delimiter 和 fields"@
}

/// The output path and format a file sink configuration asks for, or why it cannot be built.
pub open spec fn sink_outcome(config: SinkConfig) -> Result<(Seq<char>, OutputFormatView), Seq<char>> {
    match config {
        SinkConfig::File { path, format, delimiter, fields, .. } => match format_named(format@) {
            Some(f) => Ok((path@, f)),
            None => match (delimiter, fields) {
                (Some(d), Some(fs)) => Ok((path@, OutputFormatView::Delimited { delimiter: d, fields: fs.deep_view() })),
                _ => Err(delimited_needs_message()),
            },
        },
        SinkConfig::Kafka { .. } => Err(seq![]),
    }
}

/// The mathematical form of what [`PipelineBuilder::build_sink`] returns.
pub open spec fn sink_result_view(r: Result<(String, OutputFormat), String>) -> Result<(Seq<char>, OutputFormatView), Seq<char>> {
    match r {
        Ok((p, f)) => Ok((p@, f@)),
        Err(m) => Err(m@),
    }
}

impl PipelineBuilder {
    /// The parser a parser type names; an unknown type is refused.
    pub fn runtime_parser(parser_type: &str) -> (r: Result<ParserChoice, String>)
        ensures
            parser_named(parser_type@) matches Some(c) ==> (r matches Ok(p) && p@ == c),
            parser_named(parser_type@) is None ==> (r matches Err(m) && m@ == unknown_parser_message(parser_type@)),
    {
        if text_eq(parser_type, "nginx") {
            Ok(ParserChoice::Nginx { custom_regex: None })
        } else if text_eq(parser_type, "json") {
            let m: Vec<(String, String)> = Vec::new();
            assert(m.deep_view() =~= Seq::<(Seq<char>, Seq<char>)>::empty());
            let r = ParserChoice::Json { field_map: m };
            assert(r@ == ParserChoiceView::Json { field_map: Seq::empty() });
            Ok(r)
        } else {
            Err(String::from_str("不支持的解析器类型: ").concat(parser_type))
        }
    }

    /// The output format a format name names: `json`, `raw` or `csv`.
    pub fn output_format_named(name: &str) -> (r: Option<OutputFormat>)
        ensures
            format_named(name@) matches Some(f) ==> (r matches Some(o) && o@ == f),
            format_named(name@) is None ==> r is None,
    {
        if text_eq(name, "json") {
            Some(OutputFormat::Json)
        } else if text_eq(name, "raw") {
            Some(OutputFormat::Raw)
        } else if text_eq(name, "csv") {
            Some(OutputFormat::Csv)
        } else {
            None
        }
    }

    /// The parser a configuration asks for.
    pub fn build_parse(config: &ParserConfig) -> (r: ParserChoice)
        ensures
            r@ == choice_of(*config),
    {
        match config {
            ParserConfig::Nginx { custom_regex } => {
                let c = match custom_regex {
                    Some(p) => Some(p.clone()),
                    None => None,
                };
                ParserChoice::Nginx { custom_regex: c }
            },
            ParserConfig::Json { field_map } => {
                let m = match field_map {
                    Some(m) => copy_pairs(m),
                    None => Vec::new(),
                };
                assert(m.deep_view() =~= configured_field_map(*field_map));
                let r = ParserChoice::Json { field_map: m };
                assert(r@ == (ParserChoiceView::Json { field_map: configured_field_map(*field_map) }));
                r
            },
            ParserConfig::Regex { pattern, fields } => ParserChoice::Regex { pattern: pattern.clone(), fields: copy_texts(fields) },
        }
    }

    /// The parser a choice asks for; a pattern that does not compile is refused.
    pub fn build_parser(choice: ParserChoice) -> (r: Result<AnyParser, String>)
        ensures
            r is Ok <==> (choice_pattern(choice@) matches Some(p) ==> regex_accepts(p)),
            r matches Ok(p) ==> parser_for(choice@, p),
            r matches Err(m) ==> choice_pattern(choice@) matches Some(p) && m@ == invalid_pattern_message(p),
    {
        match choice {
            ParserChoice::Nginx { custom_regex } => {
                let made = match &custom_regex {
                    Some(p) => NginxParser::with_regex(p.as_str()),
                    None => NginxParser::with_regex(NGINX_LOG_PATTERN),
                };
                match made {
                    Ok(n) => Ok(AnyParser::Nginx(n)),
                    Err(m) => Err(m),
                }
            },
            ParserChoice::Json { field_map } => Ok(AnyParser::Json(JsonParser::with_field_map(field_map))),
            ParserChoice::Regex { pattern, fields } => match RegexParser::new(pattern.as_str(), &fields) {
                Ok(p) => Ok(AnyParser::Regex(p)),
                Err(m) => Err(m),
            },
        }
    }

    /// The transformers the configurations ask for, in order; the first
    /// configuration that cannot be built refuses the whole list.
    pub fn build_transformers(configs: &Vec<TransformerConfig>) -> (r: Result<Vec<AnyTransformer>, String>)
        ensures
            r is Ok <==> forall|i: int| 0 <= i < configs.len() ==> stage_buildable(#[trigger] configs@[i]),
            r matches Ok(ts) ==> ts.len() == configs.len() && forall|i: int| 0 <= i < ts.len() ==> built_from(configs@[i], #[trigger] ts@[i]),
            r matches Err(m) ==> m@ == invalid_rule_message(),
    {
        let mut transformers: Vec<AnyTransformer> = Vec::new();
        let mut i: usize = 0;
        while i < configs.len()
            invariant
                i <= configs.len(),
                transformers.len() == i,
                forall|j: int| 0 <= j < i ==> stage_buildable(#[trigger] configs@[j]),
                forall|j: int| 0 <= j < i ==> built_from(configs@[j], #[trigger] transformers@[j]),
            decreases configs.len() - i,
        {
            let t = match &configs[i] {
                TransformerConfig::Filter { field, operator, value } => {
                    match FilterTransformer::new(field.clone(), *operator, value.duplicate()) {
                        Ok(f) => AnyTransformer::Filter(f),
                        Err(e) => return Err(e),
                    }
                },
                TransformerConfig::Enrich { field, source_field, enrich_type } => {
                    match EnrichTransformer::new(field.clone(), source_field.clone(), enrich_type.duplicate()) {
                        Ok(e) => AnyTransformer::Enrich(e),
                        Err(e) => return Err(e),
                    }
                },
            };
            transformers.push(t);
            i = i + 1;
        }
        Ok(transformers)
    }

    /// The output file and format a sink configuration asks for; a
    /// `delimited` format without its delimiter or its fields is refused.
    pub fn build_sink(config: &SinkConfig) -> (r: Result<(String, OutputFormat), String>)
        requires
            sink_config_supported(*config),
        ensures
            sink_result_view(r) == sink_outcome(*config),
    {
        match config {
            SinkConfig::File { path, format, delimiter, fields, .. } => {
                match Self::output_format_named(format.as_str()) {
                    Some(f) => Ok((path.clone(), f)),
                    None => match (delimiter, fields) {
                        (Some(d), Some(fs)) => Ok((path.clone(), OutputFormat::Delimited { delimiter: *d, fields: copy_texts(fs) })),
                        _ => Err(String::from_str("delimited 输出格式需要配置 delimiter 和 fields")),
                    },
                }
            },
            SinkConfig::Kafka { .. } => vstd::pervasive::unreached(),
        }
    }
}

} // verus!
