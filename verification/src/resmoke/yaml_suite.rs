//! What the YAML document of a resmoke suite says of its fixture.

use vstd::prelude::*;
use yaml_rust::ScanError;

use crate::resmoke::resmoke_suite::{fixture_type, fixture_type_of, SuiteFixtureType};
use crate::resmoke::yaml_node::{
    load_documents, value_at, yaml_documents, YamlNode, YamlNodeView,
};
use crate::utils::yaml_events::{check_loading, is_too_heavy, load_events, yaml_events, Loading};

verus! {

/// Name of the section on how the tests are executed.
pub const EXECUTOR_SECTION: &'static str = "executor";

/// Name of the section on the servers that the tests run against.
pub const FIXTURE_SECTION: &'static str = "fixture";

/// Name of the class of a fixture.
pub const CLASS_ENTRY: &'static str = "class";

/// What is wrong with the text of a suite.
#[derive(Debug, PartialEq)]
pub enum YamlSuiteError {
    /// The text is too large or too deeply nested to be read.
    TooLarge,
    /// The text is no YAML.
    NotYaml(ScanError),
    /// The document is not a map.
    RootNotMap,
    /// The executor is not a map.
    ExecutorNotMap,
}

impl YamlSuiteError {
    /// The text in which the error is reported, if it is not that of the error inside it.
    pub fn message(&self) -> (text: Option<&'static str>)
        ensures
            text.deep_view() == (match self {
                YamlSuiteError::TooLarge => Some("Resmoke config is too large or too deeply nested"@),
                YamlSuiteError::NotYaml(_) => None,
                YamlSuiteError::RootNotMap => Some("Expected map at root of resmoke config"@),
                YamlSuiteError::ExecutorNotMap => Some("Expected map as executor"@),
            }),
    {
        match self {
            YamlSuiteError::TooLarge => Some("Resmoke config is too large or too deeply nested"),
            YamlSuiteError::NotYaml(_) => None,
            YamlSuiteError::RootNotMap => Some("Expected map at root of resmoke config"),
            YamlSuiteError::ExecutorNotMap => Some("Expected map as executor"),
        }
    }
}

/// Configuration of a resmoke test suite.
#[derive(Debug, PartialEq)]
pub struct YamlSuiteConfig {
    /// Yaml contents of the configuration.
    pub config: YamlNode,
}

impl DeepView for YamlSuiteConfig {
    type V = YamlNodeView;

    open spec fn deep_view(&self) -> YamlNodeView {
        self.config.deep_view()
    }
}

impl Default for YamlSuiteConfig {
    fn default() -> (config: Self)
        ensures
            config.deep_view() == YamlNodeView::Null,
    {
        YamlSuiteConfig { config: YamlNode::Null }
    }
}

/// The text is YAML.
pub open spec fn is_yaml(text: Seq<char>) -> bool {
    yaml_events(text) is Some && yaml_documents(text) is Some
}

/// The text is no YAML, or it holds a document.
pub open spec fn holds_suite(text: Seq<char>) -> bool {
    yaml_documents(text) matches Some(documents) ==> documents.len() > 0
}

/// The document has an executor, if it is a map.
pub open spec fn has_executor(config: YamlNodeView) -> bool {
    config is Hash ==> value_at(config, EXECUTOR_SECTION@) is Some
}

/// The type of a fixture: that of its class, if it is a map that names one.
pub open spec fn node_fixture_type(fixture: YamlNodeView) -> SuiteFixtureType {
    match value_at(fixture, CLASS_ENTRY@) {
        Some(YamlNodeView::String(class)) => fixture_type_of(class),
        _ => SuiteFixtureType::Other,
    }
}

/// The fixture type of a suite whose executor is a map.
pub open spec fn executor_fixture_type(executor: YamlNodeView) -> SuiteFixtureType {
    match value_at(executor, FIXTURE_SECTION@) {
        Some(fixture) => node_fixture_type(fixture),
        None => SuiteFixtureType::Shell,
    }
}

/// The fixture type of a suite, where its configuration is a map that has a map as executor.
pub open spec fn suite_fixture_type(config: YamlNodeView) -> Option<SuiteFixtureType> {
    match value_at(config, EXECUTOR_SECTION@) {
        Some(executor) if executor is Hash => Some(executor_fixture_type(executor)),
        _ => None,
    }
}

impl YamlSuiteConfig {
    /// Take the configuration of a suite out of YAML documents: the first of them.
    ///
    /// # Arguments
    ///
    /// * `documents` - YAML documents.
    ///
    /// # Returns
    ///
    /// The configuration, if there is a document.
    pub fn first_of(documents: Vec<YamlNode>) -> (config: Option<Self>)
        ensures
            config.deep_view() == (if documents.deep_view().len() == 0 {
                None
            } else {
                Some(documents.deep_view()[0])
            }),
    {
        let mut documents: Vec<YamlNode> = documents;
        if documents.len() == 0 {
            None
        } else {
            let config: YamlNode = documents.remove(0);
            Some(YamlSuiteConfig { config })
        }
    }

    /// Read resmoke suite configuration from the given text.
    ///
    /// # Arguments
    ///
    /// * `text` - Text to read, which can be loaded and holds a document if it is YAML.
    pub fn from_str(text: &str) -> (config: Result<Self, YamlSuiteError>)
        requires
            !is_too_heavy(text@),
            holds_suite(text@),
        ensures
            match config {
                Ok(config) => is_yaml(text@) && config.deep_view() == yaml_documents(
                    text@,
                ).unwrap()[0],
                Err(error) => !is_yaml(text@) && error is NotYaml,
            },
    {
        if let Err(error) = load_events(text) {
            return Err(YamlSuiteError::NotYaml(error));
        }
        match load_documents(text) {
            Ok(documents) => Ok(Self::first_of(documents).unwrap()),
            Err(error) => Err(YamlSuiteError::NotYaml(error)),
        }
    }

    /// Read resmoke suite configuration from the given text, if it holds any.
    ///
    /// # Arguments
    ///
    /// * `text` - Text to read.
    ///
    /// # Returns
    ///
    /// The configuration, or nothing for YAML without a document, or the problem that the text
    /// cannot be loaded or is no YAML.
    pub fn find_in(text: &str) -> (config: Result<Option<Self>, YamlSuiteError>)
        ensures
            match config {
                Ok(Some(config)) => !is_too_heavy(text@) && is_yaml(text@) && holds_suite(text@)
                    && config.deep_view() == yaml_documents(text@).unwrap()[0],
                Ok(None) => !is_too_heavy(text@) && is_yaml(text@) && !holds_suite(text@),
                Err(YamlSuiteError::TooLarge) => is_too_heavy(text@),
                Err(error) => !is_too_heavy(text@) && !is_yaml(text@) && error is NotYaml,
            },
    {
        match check_loading(text) {
            Loading::Possible => {},
            Loading::TooHeavy => {
                return Err(YamlSuiteError::TooLarge);
            },
            Loading::NotYaml(error) => {
                return Err(YamlSuiteError::NotYaml(error));
            },
        }
        match load_documents(text) {
            Ok(documents) => Ok(Self::first_of(documents)),
            Err(error) => Err(YamlSuiteError::NotYaml(error)),
        }
    }

    /// Does the document have an executor, if it is a map?
    pub fn names_executor(&self) -> (found: bool)
        ensures
            found == has_executor(self.deep_view()),
    {
        !self.config.is_map() || self.config.get(EXECUTOR_SECTION).is_some()
    }

    /// Get the fixture type of this suite.
    pub fn get_fixture_type(&self) -> (result: Result<SuiteFixtureType, YamlSuiteError>)
        requires
            has_executor(self.deep_view()),
        ensures
            match result {
                Ok(suite_type) => {
                    &&& suite_fixture_type(self.deep_view()) == Some(suite_type)
                    &&& self.deep_view() is Hash
                    &&& value_at(self.deep_view(), EXECUTOR_SECTION@).unwrap() is Hash
                    &&& suite_type == executor_fixture_type(
                        value_at(self.deep_view(), EXECUTOR_SECTION@).unwrap(),
                    )
                },
                Err(YamlSuiteError::RootNotMap) => self.deep_view() !is Hash,
                Err(error) => {
                    &&& self.deep_view() is Hash
                    &&& value_at(self.deep_view(), EXECUTOR_SECTION@).unwrap() !is Hash
                    &&& error == YamlSuiteError::ExecutorNotMap
                },
            },
    {
        let executor: &YamlNode = match self.get_executor() {
            Ok(executor) => executor,
            Err(error) => {
                return Err(error);
            },
        };
        if !executor.is_map() {
            return Err(YamlSuiteError::ExecutorNotMap);
        }
        match executor.get(FIXTURE_SECTION) {
            Some(fixture) => Ok(Self::get_type_from_fixture_class(fixture)),
            None => Ok(SuiteFixtureType::Shell),
        }
    }

    /// Get the type of the given fixture class.
    ///
    /// # Arguments
    ///
    /// * `fixture` - Yaml representation of the fixture configuration.
    ///
    /// # Returns
    ///
    /// Type of fixture the suite uses.
    pub fn get_type_from_fixture_class(fixture: &YamlNode) -> (suite_type: SuiteFixtureType)
        ensures
            suite_type == node_fixture_type(fixture.deep_view()),
    {
        match fixture.get(CLASS_ENTRY) {
            Some(YamlNode::String(class)) => fixture_type(class.as_str()),
            _ => SuiteFixtureType::Other,
        }
    }

    /// Get the executor section of this configuration.
    pub fn get_executor(&self) -> (executor: Result<&YamlNode, YamlSuiteError>)
        requires
            has_executor(self.deep_view()),
        ensures
            match executor {
                Ok(executor) => self.deep_view() is Hash && value_at(
                    self.deep_view(),
                    EXECUTOR_SECTION@,
                ) == Some(executor.deep_view()),
                Err(error) => self.deep_view() !is Hash && error == YamlSuiteError::RootNotMap,
            },
    {
        if self.config.is_map() {
            Ok(self.config.get(EXECUTOR_SECTION).unwrap())
        } else {
            Err(YamlSuiteError::RootNotMap)
        }
    }
}

} // verus!
